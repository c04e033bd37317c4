//! Building a machine: write the build description, keep a machine with
//! local modules awake, refresh the lock, build and activate the system
//! profile, reconcile the secrets, and install, start or switch the
//! container as its run-state demands.

use crate::command::{LinuxCommandBuilder, LinuxCommandView, ProcessOutputView};
use crate::config::{
    clone_modules, clone_opt, distinct_modules, distinct_secrets, machine_dir, machine_instance,
    EnvSecret, EnvSecretView,
    FlakeLocation, HostDir, HostDirView, LinuxUser, MachineConfig, MachineConfigView, Module,
    ModuleView, SecretView, Settings, SettingsView,
};
use crate::flake::flake_write;
use crate::install::{import_request, install_step, InstallStep};
use crate::machine::{
    machine_run, start_plan, store_driver, store_script, update_command, Machine, MachineDriver,
    MachineView, SYSTEM_MARKER,
};
use crate::protocol::{
    exit_error, failing, saying, silent, start_error, Action, ActionView, Error, ErrorView, Event,
    EventView, Reply, ReplyView, Request, RequestView,
};
use crate::scripts::{build_script, profile_op, render_build, ProfileOp};
use crate::secrets::{
    lemma_missing_exact, lemma_reconciled_distinct, lemma_stored_value_kept, missing,
    missing_secrets, prompt_help,
    prompt_help_message, prompt_message, prompt_text, reconcile, reconciled, stored_value,
};
use crate::status::PlatformStatus;
use crate::text::concat3;
use vstd::prelude::*;
use vstd::string::*;

verus! {

/// Where a build stands: which answer it waits for.
#[derive(Debug, PartialEq, Eq, Clone, Copy, Structural)]
pub enum BuildStep {
    /// Nothing was requested yet.
    Start,
    /// The build description is being written.
    WritingFlake,
    /// The build description is being put under version control.
    InitRepo,
    /// The run-state was asked for, because the machine has local modules.
    LocalStatus,
    /// The machine is being started, because it has local modules.
    LocalStarting,
    /// The init log of that start is being followed.
    LocalFollowing,
    /// The keep-awake task is being spawned.
    SpawningAwaker,
    /// The dependency lock is being refreshed.
    UpdatingFlake,
    /// The built-system marker is being looked for.
    ProbingProfile,
    /// The system profile is being installed or upgraded.
    BuildingProfile(ProfileOp),
    /// The keep-awake task is being killed.
    KillingAwaker,
    /// The required secrets are being evaluated.
    EvaluatingSecrets,
    /// The stored configuration is being opened under its lock.
    OpeningConfig,
    /// The user is being asked for a secret.
    Prompting,
    /// The stored configuration is being written.
    WritingConfig,
    /// The run-state was asked for, to decide how the build ends.
    FinalStatus,
    /// The container is being installed.
    Installing(InstallStep),
    /// What a failed installation left on the host is being removed.
    CleaningUp,
    /// The stopped machine is being started.
    FinalStarting,
    /// The init log of that start is being followed.
    FinalFollowing,
    /// The running system is being switched to the new configuration.
    Switching,
    /// The host's shortcuts are being written.
    WritingShortcuts,
    /// The build is complete.
    Done,
    /// The build has failed.
    Failed,
}

/// The state of one build.
#[derive(Debug, PartialEq, Eq)]
pub struct BuildState {
    pub step: BuildStep,
    /// Whether the keep-awake task runs.
    pub awake: bool,
    /// The secrets that the built configuration requires.
    pub required: Vec<EnvSecret>,
    /// The stored configuration, once it is opened.
    pub stored: Option<MachineConfig>,
    /// The answers given so far, one for each missing secret in order.
    pub answers: Vec<String>,
    /// The error that is reported once cleaning up is over.
    pub error: Option<Error>,
}

/// Mathematical value of a [`BuildState`].
#[verifier::ext_equal]
pub struct BuildStateView {
    pub step: BuildStep,
    pub awake: bool,
    pub required: Seq<EnvSecretView>,
    pub stored: Option<MachineConfigView>,
    pub answers: Seq<Seq<char>>,
    pub error: Option<ErrorView>,
}

impl View for BuildState {
    type V = BuildStateView;

    open spec fn view(&self) -> BuildStateView {
        BuildStateView {
            step: self.step,
            awake: self.awake,
            required: self.required.deep_view(),
            stored: self.stored.deep_view(),
            answers: self.answers.deep_view(),
            error: self.error.deep_view(),
        }
    }
}

/// The state of a build that has not begun.
pub open spec fn initial_build() -> BuildStateView {
    BuildStateView {
        step: BuildStep::Start,
        awake: false,
        required: Seq::empty(),
        stored: None,
        answers: Seq::empty(),
        error: None,
    }
}

/// Some module comes from a local directory.
pub open spec fn has_local(modules: Seq<ModuleView>) -> bool {
    exists|i: int|
        0 <= i < modules.len() && (#[trigger] modules[i]).location == FlakeLocation::Local
}

pub open spec fn building_text(name: Seq<char>) -> Seq<char> {
    "Building "@ + name + "..."@
}

pub open spec fn starting_text(name: Seq<char>) -> Seq<char> {
    "Starting "@ + name + "..."@
}

pub open spec fn installing_text(name: Seq<char>) -> Seq<char> {
    "Installing "@ + name + "..."@
}

pub open spec fn leftovers_text(name: Seq<char>) -> Seq<char> {
    "Removing leftovers of machine files for "@ + name + "..."@
}

/// The question for the run-state of machine `name`.
pub open spec fn status_query(settings: SettingsView, name: Seq<char>) -> ActionView {
    ActionView::Status { instance: machine_instance(settings, name) }
}

/// The command that keeps a machine awake while its local modules are read.
pub open spec fn awaker_command(settings: SettingsView, name: Seq<char>) -> LinuxCommandView {
    machine_run(settings, name, "sleep"@, seq!["infinity"@], None)
}

/// The command that ends the keep-awake task.
pub open spec fn kill_command(settings: SettingsView, name: Seq<char>) -> LinuxCommandView {
    machine_run(settings, name, "pkill"@, seq!["sleep"@], None)
}

/// The store-side command that builds the profile of machine `name`.
pub open spec fn build_command(
    settings: SettingsView,
    name: Seq<char>,
    op: ProfileOp,
) -> LinuxCommandView {
    store_script(settings, build_script(op), Some(machine_dir(settings.store_dir_config, name)))
}

/// The command that switches the running system to the new profile.
pub open spec fn switch_command(settings: SettingsView, name: Seq<char>) -> LinuxCommandView {
    machine_run(
        settings,
        name,
        "/nix/var/nix/profiles/system/bin/switch-to-configuration"@,
        seq!["switch"@],
        Some(LinuxUser::Root),
    )
}

/// The evaluation of the secrets that the configuration declares.
pub open spec fn eval_request(settings: SettingsView, name: Seq<char>) -> ActionView {
    ActionView::Eval {
        cwd: machine_dir(settings.store_dir_config, name),
        attr: "nixosConfigurations.default.config.codchi.secrets.env"@,
    }
}

/// The host directories of machine `name`.
pub open spec fn machine_dirs(name: Seq<char>) -> Seq<HostDirView> {
    seq![HostDirView::MachineConfig(name), HostDirView::MachineData(name)]
}

/// The state `s` at another step.
pub open spec fn at(s: BuildStateView, step: BuildStep) -> BuildStateView {
    BuildStateView { step, ..s }
}

/// The build gives up with `e`.
pub open spec fn fail(s: BuildStateView, e: ErrorView) -> (BuildStateView, ReplyView) {
    (at(s, BuildStep::Failed), failing(e))
}

/// The keep-awake task is spawned.
pub open spec fn spawn_awaker(m: MachineView, settings: SettingsView, s: BuildStateView) -> (
    BuildStateView,
    ReplyView,
) {
    (
        BuildStateView { step: BuildStep::SpawningAwaker, awake: true, ..s },
        silent(ActionView::Spawn(awaker_command(settings, m.config.name))),
    )
}

/// The built-system marker is looked for.
pub open spec fn probe(m: MachineView, s: BuildStateView, message: Option<Seq<char>>) -> (
    BuildStateView,
    ReplyView,
) {
    (
        at(s, BuildStep::ProbingProfile),
        ReplyView {
            message,
            action: ActionView::Marker {
                dir: HostDirView::MachineConfig(m.config.name),
                name: SYSTEM_MARKER@,
            },
        },
    )
}

/// The lock is refreshed, unless the build was asked not to.
pub open spec fn before_update(
    m: MachineView,
    no_update: bool,
    settings: SettingsView,
    s: BuildStateView,
) -> (BuildStateView, ReplyView) {
    if no_update {
        probe(m, s, Some(building_text(m.config.name)))
    } else {
        (
            at(s, BuildStep::UpdatingFlake),
            saying(
                building_text(m.config.name),
                ActionView::Stream(update_command(settings, m.config.name)),
            ),
        )
    }
}

/// The required secrets are evaluated; the keep-awake task is gone.
pub open spec fn evaluate(m: MachineView, settings: SettingsView, s: BuildStateView) -> (
    BuildStateView,
    ReplyView,
) {
    (
        BuildStateView { step: BuildStep::EvaluatingSecrets, awake: false, ..s },
        silent(eval_request(settings, m.config.name)),
    )
}

/// The next missing secret is asked for; once every missing secret has its
/// answer, the reconciled secrets are written.
pub open spec fn next_prompt(s: BuildStateView) -> (BuildStateView, ReplyView) {
    match s.stored {
        Some(config) => {
            let pending = missing(s.required, config.secrets);
            if s.answers.len() < pending.len() {
                (
                    at(s, BuildStep::Prompting),
                    silent(
                        ActionView::Prompt {
                            message: prompt_text(pending[s.answers.len() as int]),
                            help: prompt_help(pending[s.answers.len() as int]),
                        },
                    ),
                )
            } else if s.answers.len() == pending.len() {
                (
                    at(s, BuildStep::WritingConfig),
                    silent(
                        ActionView::WriteConfig(
                            MachineConfigView {
                                secrets: reconciled(s.required, config.secrets, s.answers),
                                ..config
                            },
                        ),
                    ),
                )
            } else {
                fail(s, ErrorView::Unexpected)
            }
        },
        None => fail(s, ErrorView::Unexpected),
    }
}

/// The running system is switched to the new profile.
pub open spec fn switch(m: MachineView, settings: SettingsView, s: BuildStateView) -> (
    BuildStateView,
    ReplyView,
) {
    (
        at(s, BuildStep::Switching),
        silent(ActionView::Run(switch_command(settings, m.config.name))),
    )
}

/// The host's shortcuts are written.
pub open spec fn shortcuts(m: MachineView, s: BuildStateView) -> (BuildStateView, ReplyView) {
    (
        at(s, BuildStep::WritingShortcuts),
        saying(
            "Updating start menu shortcuts..."@,
            ActionView::Shortcuts { name: m.config.name, present: true },
        ),
    )
}

/// The machine is started: its environment file is written.
pub open spec fn start_now(
    m: MachineView,
    settings: SettingsView,
    s: BuildStateView,
    step: BuildStep,
) -> (BuildStateView, ReplyView) {
    (
        at(s, step),
        saying(
            starting_text(m.config.name),
            ActionView::Stream(start_plan(m.config, settings).write_env),
        ),
    )
}

/// The init log of the started machine is followed in the background.
pub open spec fn follow_log(
    m: MachineView,
    settings: SettingsView,
    s: BuildStateView,
    step: BuildStep,
) -> (BuildStateView, ReplyView) {
    (at(s, step), silent(ActionView::Follow(start_plan(m.config, settings).tail_log)))
}

/// How a build goes on after a step of the installation.
pub open spec fn after_install(
    m: MachineView,
    settings: SettingsView,
    s: BuildStateView,
    next: (InstallStep, ReplyView),
) -> (BuildStateView, ReplyView) {
    match next.1.action {
        ActionView::Done => shortcuts(m, s),
        ActionView::Fail(e) => if settings.debug {
            fail(s, e)
        } else {
            (
                BuildStateView { step: BuildStep::CleaningUp, error: Some(e), ..s },
                saying(
                    leftovers_text(m.config.name),
                    ActionView::RemoveDirs(machine_dirs(m.config.name)),
                ),
            )
        },
        _ => (at(s, BuildStep::Installing(next.0)), next.1),
    }
}

/// The question for the run-state, as a request that can fail.
pub open spec fn status_asked(settings: SettingsView, name: Seq<char>) -> RequestView {
    RequestView::Status { instance: machine_instance(settings, name) }
}

/// What a request has failed with: a command that was started ended with a
/// non-zero exit code, one that was not could not be started.
pub open spec fn command_outcome(
    s: BuildStateView,
    event: EventView,
    command: LinuxCommandView,
    next: (BuildStateView, ReplyView),
) -> (BuildStateView, ReplyView) {
    match event {
        EventView::Exit(out) => if out.success {
            next
        } else {
            fail(s, exit_error(command))
        },
        EventView::Failed => fail(s, start_error(command)),
        _ => fail(s, ErrorView::Unexpected),
    }
}

/// The build begins: the build description is written.
pub open spec fn on_start(
    m: MachineView,
    settings: SettingsView,
    s: BuildStateView,
    event: EventView,
) -> (BuildStateView, ReplyView) {
    let write = flake_write(m.config, settings);
    match event {
        EventView::Begin => (
            at(s, BuildStep::WritingFlake),
            silent(ActionView::WriteFile { dir: write.dir, file: write.file, text: write.text }),
        ),
        _ => fail(s, ErrorView::Unexpected),
    }
}

/// The build description is written: it is put under version control.
pub open spec fn on_flake_written(
    m: MachineView,
    settings: SettingsView,
    s: BuildStateView,
    event: EventView,
) -> (BuildStateView, ReplyView) {
    let write = flake_write(m.config, settings);
    match event {
        EventView::Performed => (
            at(s, BuildStep::InitRepo),
            silent(ActionView::Run(write.init)),
        ),
        EventView::Failed => fail(
            s,
            ErrorView::Action(RequestView::WriteFile { dir: write.dir, file: write.file }),
        ),
        _ => fail(s, ErrorView::Unexpected),
    }
}

/// The build description is under version control. A machine with local
/// modules must have a container: its run-state is asked for.
pub open spec fn on_repo_ready(
    m: MachineView,
    no_update: bool,
    settings: SettingsView,
    s: BuildStateView,
    event: EventView,
) -> (BuildStateView, ReplyView) {
    command_outcome(
        s,
        event,
        flake_write(m.config, settings).init,
        if has_local(m.config.modules) {
            (
                at(s, BuildStep::LocalStatus),
                saying(building_text(m.config.name), status_query(settings, m.config.name)),
            )
        } else {
            before_update(m, no_update, settings, s)
        },
    )
}

/// The run-state of a machine with local modules is known: a stopped
/// machine is started, a running one is kept awake, and one without a
/// container cannot be built.
pub open spec fn on_local_status(
    m: MachineView,
    settings: SettingsView,
    s: BuildStateView,
    event: EventView,
) -> (BuildStateView, ReplyView) {
    match event {
        EventView::Status(status) => match status {
            PlatformStatus::Stopped => start_now(m, settings, s, BuildStep::LocalStarting),
            PlatformStatus::Running => spawn_awaker(m, settings, s),
            PlatformStatus::NotInstalled => fail(s, ErrorView::LocalModules(m.config.name)),
        },
        EventView::Failed => fail(
            s,
            ErrorView::Action(status_asked(settings, m.config.name)),
        ),
        _ => fail(s, ErrorView::Unexpected),
    }
}

/// The environment file of a start is written: the init log is followed.
pub open spec fn on_started(
    m: MachineView,
    settings: SettingsView,
    s: BuildStateView,
    event: EventView,
    following: BuildStep,
) -> (BuildStateView, ReplyView) {
    command_outcome(
        s,
        event,
        start_plan(m.config, settings).write_env,
        follow_log(m, settings, s, following),
    )
}

/// The keep-awake task was requested. It is a help and no condition: where
/// the host could not spawn it the build goes on without it, and then
/// nothing is there to kill.
pub open spec fn on_awaker_spawned(
    m: MachineView,
    no_update: bool,
    settings: SettingsView,
    s: BuildStateView,
    event: EventView,
) -> (BuildStateView, ReplyView) {
    match event {
        EventView::Performed => before_update(m, no_update, settings, s),
        EventView::Failed => before_update(
            m,
            no_update,
            settings,
            BuildStateView { awake: false, ..s },
        ),
        _ => fail(s, ErrorView::Unexpected),
    }
}

/// The lock is refreshed.
pub open spec fn on_flake_updated(
    m: MachineView,
    settings: SettingsView,
    s: BuildStateView,
    event: EventView,
) -> (BuildStateView, ReplyView) {
    command_outcome(s, event, update_command(settings, m.config.name), probe(m, s, None))
}

/// The request for the built-system marker, as one that can fail.
pub open spec fn marker_asked(name: Seq<char>) -> RequestView {
    RequestView::Marker { dir: HostDirView::MachineConfig(name), name: SYSTEM_MARKER@ }
}

/// It is known whether a built system exists: the profile is installed or
/// upgraded accordingly.
pub open spec fn on_profile_probed(
    m: MachineView,
    settings: SettingsView,
    s: BuildStateView,
    event: EventView,
) -> (BuildStateView, ReplyView) {
    match event {
        EventView::Answer(present) => (
            at(s, BuildStep::BuildingProfile(profile_op(present))),
            silent(
                ActionView::Stream(build_command(settings, m.config.name, profile_op(present))),
            ),
        ),
        EventView::Failed => fail(s, ErrorView::Action(marker_asked(m.config.name))),
        _ => fail(s, ErrorView::Unexpected),
    }
}

/// The profile is built: the keep-awake task, if there is one, is killed.
pub open spec fn on_profile_built(
    m: MachineView,
    settings: SettingsView,
    s: BuildStateView,
    op: ProfileOp,
    event: EventView,
) -> (BuildStateView, ReplyView) {
    command_outcome(
        s,
        event,
        build_command(settings, m.config.name, op),
        if s.awake {
            (
                at(s, BuildStep::KillingAwaker),
                silent(ActionView::Run(kill_command(settings, m.config.name))),
            )
        } else {
            evaluate(m, settings, s)
        },
    )
}

/// The evaluation of the declared secrets, as a request that can fail.
pub open spec fn eval_asked(settings: SettingsView, name: Seq<char>) -> RequestView {
    RequestView::Eval {
        cwd: machine_dir(settings.store_dir_config, name),
        attr: "nixosConfigurations.default.config.codchi.secrets.env"@,
    }
}

/// The required secrets are known: the stored configuration is opened
/// under its lock.
pub open spec fn on_secrets_evaluated(
    m: MachineView,
    settings: SettingsView,
    s: BuildStateView,
    event: EventView,
) -> (BuildStateView, ReplyView) {
    match event {
        EventView::Secrets(required) => (
            BuildStateView { step: BuildStep::OpeningConfig, required, ..s },
            saying(
                "Evaluating secrets..."@,
                ActionView::OpenConfig { name: m.config.name, lock: true },
            ),
        ),
        EventView::Failed => fail(s, ErrorView::Action(eval_asked(settings, m.config.name))),
        _ => fail(s, ErrorView::Unexpected),
    }
}

/// The stored configuration is open: the first missing secret is asked for.
pub open spec fn on_config_opened(m: MachineView, s: BuildStateView, event: EventView) -> (
    BuildStateView,
    ReplyView,
) {
    match event {
        EventView::Config(config) => next_prompt(
            BuildStateView { stored: Some(config), answers: Seq::empty(), ..s },
        ),
        EventView::Failed => fail(
            s,
            ErrorView::Action(RequestView::OpenConfig { name: m.config.name }),
        ),
        _ => fail(s, ErrorView::Unexpected),
    }
}

/// The question that a build in state `s` has asked last, as a request
/// that can fail.
pub open spec fn prompt_asked(s: BuildStateView) -> Option<RequestView> {
    match s.stored {
        Some(config) => {
            let pending = missing(s.required, config.secrets);
            if s.answers.len() < pending.len() {
                Some(
                    RequestView::Prompt { message: prompt_text(pending[s.answers.len() as int]) },
                )
            } else {
                None
            }
        },
        None => None,
    }
}

/// A secret was entered. A prompt that fails, as when the user cancels it,
/// ends the build.
pub open spec fn on_prompted(s: BuildStateView, event: EventView) -> (BuildStateView, ReplyView) {
    match event {
        EventView::Text(answer) => next_prompt(
            BuildStateView { answers: s.answers.push(answer), ..s },
        ),
        EventView::Failed => match prompt_asked(s) {
            Some(request) => fail(s, ErrorView::Action(request)),
            None => fail(s, ErrorView::Unexpected),
        },
        _ => fail(s, ErrorView::Unexpected),
    }
}

/// The secrets are stored: the run-state decides how the build ends.
pub open spec fn on_config_written(
    m: MachineView,
    settings: SettingsView,
    s: BuildStateView,
    event: EventView,
) -> (BuildStateView, ReplyView) {
    match event {
        EventView::Performed => (
            at(s, BuildStep::FinalStatus),
            saying(building_text(m.config.name), status_query(settings, m.config.name)),
        ),
        EventView::Failed => fail(
            s,
            ErrorView::Action(RequestView::WriteConfig { name: m.config.name }),
        ),
        _ => fail(s, ErrorView::Unexpected),
    }
}

/// The run-state is known: a machine without a container is installed, a
/// stopped one is started and then switched, a running one is switched.
pub open spec fn on_final_status(
    m: MachineView,
    settings: SettingsView,
    s: BuildStateView,
    event: EventView,
) -> (BuildStateView, ReplyView) {
    match event {
        EventView::Status(status) => match status {
            PlatformStatus::NotInstalled => {
                let first = install_step(m.config, settings, InstallStep::Start, EventView::Begin);
                (
                    at(s, BuildStep::Installing(first.0)),
                    ReplyView {
                        message: Some(installing_text(m.config.name)),
                        action: first.1.action,
                    },
                )
            },
            PlatformStatus::Stopped => start_now(m, settings, s, BuildStep::FinalStarting),
            PlatformStatus::Running => switch(m, settings, s),
        },
        EventView::Failed => fail(
            s,
            ErrorView::Action(status_asked(settings, m.config.name)),
        ),
        _ => fail(s, ErrorView::Unexpected),
    }
}

/// The leftovers are removed: the installation's error is reported.
pub open spec fn on_cleaned_up(s: BuildStateView) -> (BuildStateView, ReplyView) {
    match s.error {
        Some(e) => (BuildStateView { step: BuildStep::Failed, error: None, ..s }, failing(e)),
        None => (
            BuildStateView { step: BuildStep::Failed, error: None, ..s },
            failing(ErrorView::Unexpected),
        ),
    }
}

/// The system is switched: the host's shortcuts are written.
pub open spec fn on_switched(
    m: MachineView,
    settings: SettingsView,
    s: BuildStateView,
    event: EventView,
) -> (BuildStateView, ReplyView) {
    command_outcome(s, event, switch_command(settings, m.config.name), shortcuts(m, s))
}

/// The shortcuts are written: the build is complete.
pub open spec fn on_shortcuts_written(m: MachineView, s: BuildStateView, event: EventView) -> (
    BuildStateView,
    ReplyView,
) {
    match event {
        EventView::Performed => (at(s, BuildStep::Done), silent(ActionView::Done)),
        EventView::Failed => fail(
            s,
            ErrorView::Action(RequestView::Shortcuts { name: m.config.name, present: true }),
        ),
        _ => fail(s, ErrorView::Unexpected),
    }
}

/// The next step of a build.
pub open spec fn build_step(
    m: MachineView,
    no_update: bool,
    settings: SettingsView,
    s: BuildStateView,
    event: EventView,
) -> (BuildStateView, ReplyView) {
    match s.step {
        BuildStep::Start => on_start(m, settings, s, event),
        BuildStep::WritingFlake => on_flake_written(m, settings, s, event),
        BuildStep::InitRepo => on_repo_ready(m, no_update, settings, s, event),
        BuildStep::LocalStatus => on_local_status(m, settings, s, event),
        BuildStep::LocalStarting => on_started(m, settings, s, event, BuildStep::LocalFollowing),
        BuildStep::LocalFollowing => spawn_awaker(m, settings, s),
        BuildStep::SpawningAwaker => on_awaker_spawned(m, no_update, settings, s, event),
        BuildStep::UpdatingFlake => on_flake_updated(m, settings, s, event),
        BuildStep::ProbingProfile => on_profile_probed(m, settings, s, event),
        BuildStep::BuildingProfile(op) => on_profile_built(m, settings, s, op, event),
        BuildStep::KillingAwaker => evaluate(m, settings, s),
        BuildStep::EvaluatingSecrets => on_secrets_evaluated(m, settings, s, event),
        BuildStep::OpeningConfig => on_config_opened(m, s, event),
        BuildStep::Prompting => on_prompted(s, event),
        BuildStep::WritingConfig => on_config_written(m, settings, s, event),
        BuildStep::FinalStatus => on_final_status(m, settings, s, event),
        BuildStep::Installing(step) => after_install(
            m,
            settings,
            s,
            install_step(m.config, settings, step, event),
        ),
        BuildStep::CleaningUp => on_cleaned_up(s),
        BuildStep::FinalStarting => on_started(m, settings, s, event, BuildStep::FinalFollowing),
        BuildStep::FinalFollowing => switch(m, settings, s),
        BuildStep::Switching => on_switched(m, settings, s, event),
        BuildStep::WritingShortcuts => on_shortcuts_written(m, s, event),
        BuildStep::Done => (s, silent(ActionView::Done)),
        BuildStep::Failed => fail(s, ErrorView::Unexpected),
    }
}


/// Whether some module comes from a local directory.
pub fn uses_local(modules: &Vec<Module>) -> (r: bool)
    ensures
        r == has_local(modules.deep_view()),
{
    let mut i: usize = 0;
    while i < modules.len()
        invariant
            i <= modules.len(),
            forall|j: int| 0 <= j < i ==> modules@[j].location != FlakeLocation::Local,
        decreases modules.len() - i,
    {
        if modules[i].location == FlakeLocation::Local {
            assert(modules.deep_view()[i as int].location == FlakeLocation::Local);
            return true;
        }
        i = i + 1;
    }
    proof {
        let views = modules.deep_view();
        assert forall|j: int| 0 <= j < views.len() implies (#[trigger] views[j]).location
            != FlakeLocation::Local by {
            assert(views[j] == modules@[j]@);
        }
    }
    false
}

impl BuildState {
    /// The state of a build that has not begun.
    pub fn new() -> (r: BuildState)
        ensures
            r@ == initial_build(),
    {
        let r = BuildState {
            step: BuildStep::Start,
            awake: false,
            required: Vec::new(),
            stored: None,
            answers: Vec::new(),
            error: None,
        };
        assert(r@.required =~= Seq::empty());
        assert(r@.answers =~= Seq::empty());
        r
    }

    /// This state at another step.
    fn to(self, step: BuildStep) -> (r: BuildState)
        ensures
            r@ == at(self@, step),
    {
        BuildState { step, ..self }
    }

    /// The build gives up with `e`.
    fn fail(self, e: Error) -> (r: (BuildState, Reply))
        ensures
            (r.0@, r.1@) == fail(self@, e@),
    {
        (self.to(BuildStep::Failed), Reply::failing(e))
    }

    /// Whether no further event is expected.
    pub fn is_final(&self) -> (r: bool)
        ensures
            r == (self.step == BuildStep::Done || self.step == BuildStep::Failed),
    {
        self.step == BuildStep::Done || self.step == BuildStep::Failed
    }
}

impl Machine {
    fn building(&self) -> (r: String)
        ensures
            r@ == building_text(self.config@.name),
    {
        concat3("Building ", self.config.name.as_str(), "...")
    }

    fn starting(&self) -> (r: String)
        ensures
            r@ == starting_text(self.config@.name),
    {
        concat3("Starting ", self.config.name.as_str(), "...")
    }

    fn query_status(&self, settings: &Settings) -> (r: Action)
        ensures
            r@ == status_query(settings@, self.config@.name),
    {
        Action::Status { instance: settings.machine_name(self.config.name.as_str()) }
    }

    /// The command that keeps the machine awake.
    pub fn awaker(&self, settings: &Settings) -> (r: LinuxCommandBuilder)
        ensures
            r@ == awaker_command(settings@, self.config@.name),
    {
        let mut args: Vec<&str> = Vec::new();
        args.push("infinity");
        assert(args.deep_view() =~= seq!["infinity"@]);
        self.cmd(settings).run_words("sleep", args)
    }

    /// The command that ends the keep-awake task.
    pub fn kill_awaker(&self, settings: &Settings) -> (r: LinuxCommandBuilder)
        ensures
            r@ == kill_command(settings@, self.config@.name),
    {
        let mut args: Vec<&str> = Vec::new();
        args.push("sleep");
        assert(args.deep_view() =~= seq!["sleep"@]);
        self.cmd(settings).run_words("pkill", args)
    }

    /// The store-side command that installs or upgrades the system profile.
    pub fn build_profile(&self, op: ProfileOp, settings: &Settings) -> (r: LinuxCommandBuilder)
        ensures
            r@ == build_command(settings@, self.config@.name, op),
    {
        store_driver(settings).script(render_build(op)).with_cwd(
            settings.machine_config_dir(self.config.name.as_str()),
        )
    }

    /// The command that switches the running system to the new profile.
    pub fn switch_configuration(&self, settings: &Settings) -> (r: LinuxCommandBuilder)
        ensures
            r@ == switch_command(settings@, self.config@.name),
    {
        let mut args: Vec<&str> = Vec::new();
        args.push("switch");
        assert(args.deep_view() =~= seq!["switch"@]);
        self.cmd(settings).run_words(
            "/nix/var/nix/profiles/system/bin/switch-to-configuration",
            args,
        ).with_user(LinuxUser::Root)
    }

    /// The two host directories of the machine.
    pub fn host_dirs(&self) -> (r: Vec<HostDir>)
        ensures
            r.deep_view() == machine_dirs(self.config@.name),
    {
        let mut dirs: Vec<HostDir> = Vec::new();
        dirs.push(HostDir::MachineConfig(self.config.name.clone()));
        dirs.push(HostDir::MachineData(self.config.name.clone()));
        dirs
    }

    fn spawn_awaker(&self, state: BuildState, settings: &Settings) -> (r: (BuildState, Reply))
        ensures
            (r.0@, r.1@) == spawn_awaker(self@, settings@, state@),
    {
        (
            BuildState { step: BuildStep::SpawningAwaker, awake: true, ..state },
            Reply::silent(Action::Spawn(self.awaker(settings))),
        )
    }

    fn probe(&self, state: BuildState, message: Option<String>) -> (r: (BuildState, Reply))
        ensures
            (r.0@, r.1@) == probe(self@, state@, message.deep_view()),
    {
        (
            state.to(BuildStep::ProbingProfile),
            Reply {
                message,
                action: Action::Marker {
                    dir: HostDir::MachineConfig(self.config.name.clone()),
                    name: String::from_str(SYSTEM_MARKER),
                },
            },
        )
    }

    fn before_update(&self, no_update: bool, state: BuildState, settings: &Settings) -> (r: (
        BuildState,
        Reply,
    ))
        ensures
            (r.0@, r.1@) == before_update(self@, no_update, settings@, state@),
    {
        if no_update {
            self.probe(state, Some(self.building()))
        } else {
            (
                state.to(BuildStep::UpdatingFlake),
                Reply::saying(self.building(), Action::Stream(self.update_flake(settings))),
            )
        }
    }

    fn evaluate(&self, state: BuildState, settings: &Settings) -> (r: (BuildState, Reply))
        ensures
            (r.0@, r.1@) == evaluate(self@, settings@, state@),
    {
        (
            BuildState { step: BuildStep::EvaluatingSecrets, awake: false, ..state },
            Reply::silent(
                Action::Eval {
                    cwd: settings.machine_config_dir(self.config.name.as_str()),
                    attr: String::from_str(
                        "nixosConfigurations.default.config.codchi.secrets.env",
                    ),
                },
            ),
        )
    }

    fn switch(&self, state: BuildState, settings: &Settings) -> (r: (BuildState, Reply))
        ensures
            (r.0@, r.1@) == switch(self@, settings@, state@),
    {
        (
            state.to(BuildStep::Switching),
            Reply::silent(Action::Run(self.switch_configuration(settings))),
        )
    }

    fn shortcuts(&self, state: BuildState) -> (r: (BuildState, Reply))
        ensures
            (r.0@, r.1@) == shortcuts(self@, state@),
    {
        (
            state.to(BuildStep::WritingShortcuts),
            Reply::saying(
                String::from_str("Updating start menu shortcuts..."),
                Action::Shortcuts { name: self.config.name.clone(), present: true },
            ),
        )
    }

    fn start_now(&self, state: BuildState, step: BuildStep, settings: &Settings) -> (r: (
        BuildState,
        Reply,
    ))
        ensures
            (r.0@, r.1@) == start_now(self@, settings@, state@, step),
    {
        (
            state.to(step),
            Reply::saying(self.starting(), Action::Stream(self.start(settings).write_env)),
        )
    }

    fn after_install(
        &self,
        state: BuildState,
        next: InstallStep,
        reply: Reply,
        settings: &Settings,
    ) -> (r: (BuildState, Reply))
        ensures
            (r.0@, r.1@) == after_install(self@, settings@, state@, (next, reply@)),
    {
        let Reply { message, action } = reply;
        match action {
            Action::Done => self.shortcuts(state),
            Action::Fail(e) => if settings.debug {
                state.fail(e)
            } else {
                (
                    BuildState { step: BuildStep::CleaningUp, error: Some(e), ..state },
                    Reply::saying(
                        concat3(
                            "Removing leftovers of machine files for ",
                            self.config.name.as_str(),
                            "...",
                        ),
                        Action::RemoveDirs(self.host_dirs()),
                    ),
                )
            },
            other => (state.to(BuildStep::Installing(next)), Reply { message, action: other }),
        }
    }
}

/// The next missing secret is asked for, or the reconciled secrets are
/// written.
fn prompt_next(state: BuildState) -> (r: (BuildState, Reply))
    ensures
        (r.0@, r.1@) == next_prompt(state@),
{
    let BuildState { step, awake, required, stored, answers, error } = state;
    match stored {
        Some(config) => {
            let pending = missing_secrets(&required, &config.secrets);
            if answers.len() < pending.len() {
                let ghost want = missing(required.deep_view(), config.secrets.deep_view());
                assert(want[answers.len() as int] == pending@[answers.len() as int]@);
                let message = prompt_message(&pending[answers.len()]);
                let help = prompt_help_message(&pending[answers.len()]);
                (
                    BuildState {
                        step: BuildStep::Prompting,
                        awake,
                        required,
                        stored: Some(config),
                        answers,
                        error,
                    },
                    Reply::silent(Action::Prompt { message, help }),
                )
            } else {
                match reconcile(&required, &config.secrets, &answers) {
                    Some(all) => {
                        let written = MachineConfig {
                            name: config.name.clone(),
                            nixpkgs_from: clone_opt(&config.nixpkgs_from),
                            modules: clone_modules(&config.modules),
                            secrets: all,
                        };
                        (
                            BuildState {
                                step: BuildStep::WritingConfig,
                                awake,
                                required,
                                stored: Some(config),
                                answers,
                                error,
                            },
                            Reply::silent(Action::WriteConfig(written)),
                        )
                    },
                    None => (
                        BuildState {
                            step: BuildStep::Failed,
                            awake,
                            required,
                            stored: Some(config),
                            answers,
                            error,
                        },
                        Reply::failing(Error::Unexpected),
                    ),
                }
            }
        },
        None => (
            BuildState { step: BuildStep::Failed, awake, required, stored: None, answers, error },
            Reply::failing(Error::Unexpected),
        ),
    }
}

impl BuildState {
    /// The outcome of a command: on success what follows, otherwise the
    /// failure of the build with the command that ended badly.
    fn after_command(
        self,
        event: Event,
        command: LinuxCommandBuilder,
        next: (BuildStep, Reply),
    ) -> (r: (BuildState, Reply))
        ensures
            (r.0@, r.1@) == command_outcome(
                self@,
                event@,
                command@,
                (at(self@, next.0), next.1@),
            ),
    {
        match event {
            Event::Exit(out) => if out.success {
                (self.to(next.0), next.1)
            } else {
                self.fail(Error::exit(command))
            },
            Event::Failed => self.fail(Error::ended(command, false)),
            _ => self.fail(Error::Unexpected),
        }
    }
}

impl Machine {
    fn asked_status(&self, settings: &Settings) -> (r: Request)
        ensures
            r@ == status_asked(settings@, self.config@.name),
    {
        Request::Status { instance: settings.machine_name(self.config.name.as_str()) }
    }

    fn on_start(&self, state: BuildState, event: Event, settings: &Settings) -> (r: (
        BuildState,
        Reply,
    ))
        ensures
            (r.0@, r.1@) == on_start(self@, settings@, state@, event@),
    {
        match event {
            Event::Begin => {
                let write = self.write_flake(settings);
                (
                    state.to(BuildStep::WritingFlake),
                    Reply::silent(
                        Action::WriteFile { dir: write.dir, file: write.file, text: write.text },
                    ),
                )
            },
            _ => state.fail(Error::Unexpected),
        }
    }

    fn on_flake_written(&self, state: BuildState, event: Event, settings: &Settings) -> (r: (
        BuildState,
        Reply,
    ))
        ensures
            (r.0@, r.1@) == on_flake_written(self@, settings@, state@, event@),
    {
        let write = self.write_flake(settings);
        match event {
            Event::Performed => (
                state.to(BuildStep::InitRepo),
                Reply::silent(Action::Run(write.init)),
            ),
            Event::Failed => state.fail(
                Error::Action(Request::WriteFile { dir: write.dir, file: write.file }),
            ),
            _ => state.fail(Error::Unexpected),
        }
    }

    fn on_repo_ready(
        &self,
        no_update: bool,
        state: BuildState,
        event: Event,
        settings: &Settings,
    ) -> (r: (BuildState, Reply))
        ensures
            (r.0@, r.1@) == on_repo_ready(self@, no_update, settings@, state@, event@),
    {
        let init = self.write_flake(settings).init;
        match event {
            Event::Exit(out) => if !out.success {
                state.fail(Error::exit(init))
            } else if uses_local(&self.config.modules) {
                (
                    state.to(BuildStep::LocalStatus),
                    Reply::saying(self.building(), self.query_status(settings)),
                )
            } else {
                self.before_update(no_update, state, settings)
            },
            Event::Failed => state.fail(Error::ended(init, false)),
            _ => state.fail(Error::Unexpected),
        }
    }

    fn on_local_status(&self, state: BuildState, event: Event, settings: &Settings) -> (r: (
        BuildState,
        Reply,
    ))
        ensures
            (r.0@, r.1@) == on_local_status(self@, settings@, state@, event@),
    {
        match event {
            Event::Status(status) => match status {
                PlatformStatus::Stopped => self.start_now(
                    state,
                    BuildStep::LocalStarting,
                    settings,
                ),
                PlatformStatus::Running => self.spawn_awaker(state, settings),
                PlatformStatus::NotInstalled => state.fail(
                    Error::LocalModules(self.config.name.clone()),
                ),
            },
            Event::Failed => state.fail(Error::Action(self.asked_status(settings))),
            _ => state.fail(Error::Unexpected),
        }
    }

    fn on_started(
        &self,
        state: BuildState,
        event: Event,
        following: BuildStep,
        settings: &Settings,
    ) -> (r: (BuildState, Reply))
        ensures
            (r.0@, r.1@) == on_started(self@, settings@, state@, event@, following),
    {
        let plan = self.start(settings);
        state.after_command(
            event,
            plan.write_env,
            (following, Reply::silent(Action::Follow(plan.tail_log))),
        )
    }

    fn on_awaker_spawned(
        &self,
        no_update: bool,
        state: BuildState,
        event: Event,
        settings: &Settings,
    ) -> (r: (BuildState, Reply))
        ensures
            (r.0@, r.1@) == on_awaker_spawned(self@, no_update, settings@, state@, event@),
    {
        match event {
            Event::Performed => self.before_update(no_update, state, settings),
            Event::Failed => self.before_update(
                no_update,
                BuildState { awake: false, ..state },
                settings,
            ),
            _ => state.fail(Error::Unexpected),
        }
    }

    fn on_flake_updated(&self, state: BuildState, event: Event, settings: &Settings) -> (r: (
        BuildState,
        Reply,
    ))
        ensures
            (r.0@, r.1@) == on_flake_updated(self@, settings@, state@, event@),
    {
        match event {
            Event::Exit(out) => if out.success {
                self.probe(state, None)
            } else {
                state.fail(Error::exit(self.update_flake(settings)))
            },
            Event::Failed => state.fail(Error::ended(self.update_flake(settings), false)),
            _ => state.fail(Error::Unexpected),
        }
    }

    fn on_profile_probed(&self, state: BuildState, event: Event, settings: &Settings) -> (r: (
        BuildState,
        Reply,
    ))
        ensures
            (r.0@, r.1@) == on_profile_probed(self@, settings@, state@, event@),
    {
        match event {
            Event::Answer(present) => {
                let op = ProfileOp::for_marker(present);
                (
                    state.to(BuildStep::BuildingProfile(op)),
                    Reply::silent(Action::Stream(self.build_profile(op, settings))),
                )
            },
            Event::Failed => state.fail(
                Error::Action(
                    Request::Marker {
                        dir: HostDir::MachineConfig(self.config.name.clone()),
                        name: String::from_str(SYSTEM_MARKER),
                    },
                ),
            ),
            _ => state.fail(Error::Unexpected),
        }
    }

    fn on_profile_built(
        &self,
        state: BuildState,
        op: ProfileOp,
        event: Event,
        settings: &Settings,
    ) -> (r: (BuildState, Reply))
        ensures
            (r.0@, r.1@) == on_profile_built(self@, settings@, state@, op, event@),
    {
        match event {
            Event::Exit(out) => if !out.success {
                state.fail(Error::exit(self.build_profile(op, settings)))
            } else if state.awake {
                (
                    state.to(BuildStep::KillingAwaker),
                    Reply::silent(Action::Run(self.kill_awaker(settings))),
                )
            } else {
                self.evaluate(state, settings)
            },
            Event::Failed => state.fail(Error::ended(self.build_profile(op, settings), false)),
            _ => state.fail(Error::Unexpected),
        }
    }

    fn on_secrets_evaluated(&self, state: BuildState, event: Event, settings: &Settings) -> (r: (
        BuildState,
        Reply,
    ))
        ensures
            (r.0@, r.1@) == on_secrets_evaluated(self@, settings@, state@, event@),
    {
        match event {
            Event::Secrets(required) => (
                BuildState { step: BuildStep::OpeningConfig, required, ..state },
                Reply::saying(
                    String::from_str("Evaluating secrets..."),
                    Action::OpenConfig { name: self.config.name.clone(), lock: true },
                ),
            ),
            Event::Failed => state.fail(
                Error::Action(
                    Request::Eval {
                        cwd: settings.machine_config_dir(self.config.name.as_str()),
                        attr: String::from_str(
                            "nixosConfigurations.default.config.codchi.secrets.env",
                        ),
                    },
                ),
            ),
            _ => state.fail(Error::Unexpected),
        }
    }

    fn on_config_opened(&self, state: BuildState, event: Event) -> (r: (BuildState, Reply))
        ensures
            (r.0@, r.1@) == on_config_opened(self@, state@, event@),
    {
        match event {
            Event::Config(config) => {
                let answers: Vec<String> = Vec::new();
                assert(answers.deep_view() =~= Seq::empty());
                prompt_next(BuildState { stored: Some(config), answers, ..state })
            },
            Event::Failed => state.fail(
                Error::Action(Request::OpenConfig { name: self.config.name.clone() }),
            ),
            _ => state.fail(Error::Unexpected),
        }
    }

    fn on_config_written(&self, state: BuildState, event: Event, settings: &Settings) -> (r: (
        BuildState,
        Reply,
    ))
        ensures
            (r.0@, r.1@) == on_config_written(self@, settings@, state@, event@),
    {
        match event {
            Event::Performed => (
                state.to(BuildStep::FinalStatus),
                Reply::saying(self.building(), self.query_status(settings)),
            ),
            Event::Failed => state.fail(
                Error::Action(Request::WriteConfig { name: self.config.name.clone() }),
            ),
            _ => state.fail(Error::Unexpected),
        }
    }

    fn on_final_status(&self, state: BuildState, event: Event, settings: &Settings) -> (r: (
        BuildState,
        Reply,
    ))
        ensures
            (r.0@, r.1@) == on_final_status(self@, settings@, state@, event@),
    {
        match event {
            Event::Status(status) => match status {
                PlatformStatus::NotInstalled => {
                    let (first, reply) = self.install(InstallStep::Start, Event::Begin, settings);
                    (
                        state.to(BuildStep::Installing(first)),
                        Reply {
                            message: Some(
                                concat3("Installing ", self.config.name.as_str(), "..."),
                            ),
                            action: reply.action,
                        },
                    )
                },
                PlatformStatus::Stopped => self.start_now(
                    state,
                    BuildStep::FinalStarting,
                    settings,
                ),
                PlatformStatus::Running => self.switch(state, settings),
            },
            Event::Failed => state.fail(Error::Action(self.asked_status(settings))),
            _ => state.fail(Error::Unexpected),
        }
    }

    fn on_switched(&self, state: BuildState, event: Event, settings: &Settings) -> (r: (
        BuildState,
        Reply,
    ))
        ensures
            (r.0@, r.1@) == on_switched(self@, settings@, state@, event@),
    {
        match event {
            Event::Exit(out) => if out.success {
                self.shortcuts(state)
            } else {
                state.fail(Error::exit(self.switch_configuration(settings)))
            },
            Event::Failed => state.fail(
                Error::ended(self.switch_configuration(settings), false),
            ),
            _ => state.fail(Error::Unexpected),
        }
    }

    fn on_shortcuts_written(&self, state: BuildState, event: Event) -> (r: (BuildState, Reply))
        ensures
            (r.0@, r.1@) == on_shortcuts_written(self@, state@, event@),
    {
        match event {
            Event::Performed => (state.to(BuildStep::Done), Reply::silent(Action::Done)),
            Event::Failed => state.fail(
                Error::Action(
                    Request::Shortcuts { name: self.config.name.clone(), present: true },
                ),
            ),
            _ => state.fail(Error::Unexpected),
        }
    }

    /// The next step of a build of this machine: from the state of the build
    /// and the answer to its last request to the next state and the next
    /// request. `no_update` leaves the dependency lock as it is.
    pub fn build(
        &self,
        no_update: bool,
        state: BuildState,
        event: Event,
        settings: &Settings,
    ) -> (r: (BuildState, Reply))
        ensures
            (r.0@, r.1@) == build_step(self@, no_update, settings@, state@, event@),
    {
        match state.step {
            BuildStep::Start => self.on_start(state, event, settings),
            BuildStep::WritingFlake => self.on_flake_written(state, event, settings),
            BuildStep::InitRepo => self.on_repo_ready(no_update, state, event, settings),
            BuildStep::LocalStatus => self.on_local_status(state, event, settings),
            BuildStep::LocalStarting => self.on_started(
                state,
                event,
                BuildStep::LocalFollowing,
                settings,
            ),
            BuildStep::LocalFollowing => self.spawn_awaker(state, settings),
            BuildStep::SpawningAwaker => self.on_awaker_spawned(no_update, state, event, settings),
            BuildStep::UpdatingFlake => self.on_flake_updated(state, event, settings),
            BuildStep::ProbingProfile => self.on_profile_probed(state, event, settings),
            BuildStep::BuildingProfile(op) => self.on_profile_built(state, op, event, settings),
            BuildStep::KillingAwaker => self.evaluate(state, settings),
            BuildStep::EvaluatingSecrets => self.on_secrets_evaluated(state, event, settings),
            BuildStep::OpeningConfig => self.on_config_opened(state, event),
            BuildStep::Prompting => on_prompted_now(state, event),
            BuildStep::WritingConfig => self.on_config_written(state, event, settings),
            BuildStep::FinalStatus => self.on_final_status(state, event, settings),
            BuildStep::Installing(step) => {
                let (next, reply) = self.install(step, event, settings);
                self.after_install(state, next, reply, settings)
            },
            BuildStep::CleaningUp => on_cleaned_up_now(state),
            BuildStep::FinalStarting => self.on_started(
                state,
                event,
                BuildStep::FinalFollowing,
                settings,
            ),
            BuildStep::FinalFollowing => self.switch(state, settings),
            BuildStep::Switching => self.on_switched(state, event, settings),
            BuildStep::WritingShortcuts => self.on_shortcuts_written(state, event),
            BuildStep::Done => (state, Reply::silent(Action::Done)),
            BuildStep::Failed => state.fail(Error::Unexpected),
        }
    }
}

/// The question that the build has asked last, as a request that can fail.
fn asked_prompt(state: &BuildState) -> (r: Option<Request>)
    ensures
        r.deep_view() == prompt_asked(state@),
{
    match &state.stored {
        Some(config) => {
            let pending = missing_secrets(&state.required, &config.secrets);
            if state.answers.len() < pending.len() {
                let ghost want = missing(state.required.deep_view(), config.secrets.deep_view());
                assert(want[state.answers.len() as int] == pending@[state.answers.len() as int]@);
                Some(Request::Prompt { message: prompt_message(&pending[state.answers.len()]) })
            } else {
                None
            }
        },
        None => None,
    }
}

fn on_prompted_now(state: BuildState, event: Event) -> (r: (BuildState, Reply))
    ensures
        (r.0@, r.1@) == on_prompted(state@, event@),
{
    match event {
        Event::Text(answer) => {
            let ghost before = state.answers.deep_view();
            let BuildState { step, awake, required, stored, answers, error } = state;
            let mut answers = answers;
            answers.push(answer);
            assert(answers.deep_view() =~= before.push(answer@));
            prompt_next(BuildState { step, awake, required, stored, answers, error })
        },
        Event::Failed => match asked_prompt(&state) {
            Some(request) => state.fail(Error::Action(request)),
            None => state.fail(Error::Unexpected),
        },
        _ => state.fail(Error::Unexpected),
    }
}

fn on_cleaned_up_now(state: BuildState) -> (r: (BuildState, Reply))
    ensures
        (r.0@, r.1@) == on_cleaned_up(state@),
{
    let BuildState { step, awake, required, stored, answers, error } = state;
    let reply = match error {
        Some(e) => Reply::failing(e),
        None => Reply::failing(Error::Unexpected),
    };
    (BuildState { step: BuildStep::Failed, awake, required, stored, answers, error: None }, reply)
}


/// Cleanup on failure: when the installation fails during a build and debug
/// output is disabled, the machine's two host directories are removed
/// before the installation's error is reported; with debug output enabled
/// the error is reported at once and nothing is removed.
pub proof fn lemma_install_failure_cleanup(
    m: MachineView,
    no_update: bool,
    settings: SettingsView,
    s: BuildStateView,
    step: InstallStep,
    event: EventView,
    e: ErrorView,
)
    requires
        s.step == BuildStep::Installing(step),
        install_step(m.config, settings, step, event).1.action == ActionView::Fail(e),
    ensures
        settings.debug ==> build_step(m, no_update, settings, s, event) == fail(s, e),
        !settings.debug ==> {
            let cleaning = build_step(m, no_update, settings, s, event);
            &&& cleaning.0.step == BuildStep::CleaningUp
            &&& cleaning.1.action == ActionView::RemoveDirs(machine_dirs(m.config.name))
            &&& forall|next: EventView|
                {
                    let last = #[trigger] build_step(m, no_update, settings, cleaning.0, next);
                    last.0.step == BuildStep::Failed && last.1 == failing(e)
                }
        },
{
}

/// Local modules require a prior install: a machine that uses local
/// modules and has no container cannot be built.
pub proof fn lemma_local_modules_need_install(
    m: MachineView,
    no_update: bool,
    settings: SettingsView,
    s: BuildStateView,
)
    requires
        s.step == BuildStep::LocalStatus,
    ensures
        build_step(
            m,
            no_update,
            settings,
            s,
            EventView::Status(PlatformStatus::NotInstalled),
        ) == fail(s, ErrorView::LocalModules(m.config.name)),
{
}

/// The keep-awake task lives exactly as long as the build of the profile
/// needs it: it is killed as soon as the profile is built, whatever the
/// kill reports the build goes on, and the secrets are never evaluated
/// while the task is marked alive. The task is a help only: where it could
/// not be spawned the build goes on without it, and then no kill is
/// requested.
pub proof fn lemma_awaker_bracket(
    m: MachineView,
    no_update: bool,
    settings: SettingsView,
    s: BuildStateView,
    event: EventView,
)
    ensures
        s.awake && s.step is BuildingProfile && (event matches EventView::Exit(out) && out.success)
            ==> build_step(m, no_update, settings, s, event) == (
            at(s, BuildStep::KillingAwaker),
            silent(ActionView::Run(kill_command(settings, m.config.name))),
        ),
        s.step == BuildStep::KillingAwaker ==> build_step(m, no_update, settings, s, event)
            == evaluate(m, settings, s),
        s.step == BuildStep::SpawningAwaker ==> build_step(
            m,
            no_update,
            settings,
            s,
            EventView::Failed,
        ) == before_update(m, no_update, settings, BuildStateView { awake: false, ..s }),
        !s.awake && s.step is BuildingProfile && (event matches EventView::Exit(out)
            && out.success) ==> build_step(m, no_update, settings, s, event) == evaluate(
            m,
            settings,
            s,
        ),
        build_step(m, no_update, settings, s, event).1.action is Eval ==> !build_step(
            m,
            no_update,
            settings,
            s,
            event,
        ).0.awake,
{
}

/// Only missing secrets are asked for: every question of a build is the
/// question for a required secret that has no stored value.
pub proof fn lemma_prompts_are_missing(
    m: MachineView,
    no_update: bool,
    settings: SettingsView,
    s: BuildStateView,
    event: EventView,
)
    requires
        build_step(m, no_update, settings, s, event).1.action is Prompt,
    ensures
        ({
            let next = build_step(m, no_update, settings, s, event);
            next.0.stored matches Some(config) && exists|secret: EnvSecretView|
                #![trigger prompt_text(secret)]
                next.0.required.contains(secret) && stored_value(
                    config.secrets,
                    secret.name,
                ) is None && next.1.action == (ActionView::Prompt {
                    message: prompt_text(secret),
                    help: prompt_help(secret),
                })
        }),
{
    let next = build_step(m, no_update, settings, s, event);
    let config = next.0.stored->0;
    let pending = missing(next.0.required, config.secrets);
    let secret = pending[next.0.answers.len() as int];
    lemma_missing_exact(next.0.required, config.secrets, secret);
    assert(next.1.action == (ActionView::Prompt {
        message: prompt_text(secret),
        help: prompt_help(secret),
    }));
}

/// Stored secrets survive a build: in the configuration that a build
/// writes, every required secret that had a stored value has exactly that
/// value, and everything but the secrets is as it was opened.
pub proof fn lemma_written_secrets_kept(
    m: MachineView,
    no_update: bool,
    settings: SettingsView,
    s: BuildStateView,
    event: EventView,
    i: int,
)
    requires
        build_step(m, no_update, settings, s, event).1.action is WriteConfig,
        0 <= i < build_step(m, no_update, settings, s, event).0.required.len(),
    ensures
        ({
            let next = build_step(m, no_update, settings, s, event);
            let written = next.1.action->WriteConfig_0;
            let name = next.0.required[i].name;
            next.0.stored matches Some(opened) && written.name == opened.name && written.modules
                == opened.modules && written.nixpkgs_from == opened.nixpkgs_from && (
            stored_value(opened.secrets, name) matches Some(value)
                ==> stored_value(written.secrets, name) == Some(value))
        }),
{
    let next = build_step(m, no_update, settings, s, event);
    let opened = next.0.stored->0;
    let name = next.0.required[i].name;
    if stored_value(opened.secrets, name) is Some {
        lemma_stored_value_kept(
            next.0.required,
            opened.secrets,
            next.0.answers,
            i,
        );
    }
}

/// What a build writes is well formed: the written configuration names
/// every secret once, whatever was stored before, and names every module
/// once if the opened configuration did.
pub proof fn lemma_written_config_well_formed(
    m: MachineView,
    no_update: bool,
    settings: SettingsView,
    s: BuildStateView,
    event: EventView,
)
    requires
        build_step(m, no_update, settings, s, event).1.action is WriteConfig,
    ensures
        ({
            let next = build_step(m, no_update, settings, s, event);
            let written = next.1.action->WriteConfig_0;
            &&& distinct_secrets(written.secrets)
            &&& next.0.stored matches Some(opened) && (distinct_modules(opened.modules)
                ==> written.well_formed())
        }),
{
    let next = build_step(m, no_update, settings, s, event);
    let opened = next.0.stored->0;
    lemma_reconciled_distinct(next.0.required, opened.secrets, next.0.answers);
}

/// How far a build has come. The numbers grow along every path through the
/// build.
pub open spec fn build_rank(step: BuildStep) -> nat {
    match step {
        BuildStep::Start => 0,
        BuildStep::WritingFlake => 1,
        BuildStep::InitRepo => 2,
        BuildStep::LocalStatus => 3,
        BuildStep::LocalStarting => 4,
        BuildStep::LocalFollowing => 5,
        BuildStep::SpawningAwaker => 6,
        BuildStep::UpdatingFlake => 7,
        BuildStep::ProbingProfile => 8,
        BuildStep::BuildingProfile(_) => 9,
        BuildStep::KillingAwaker => 10,
        BuildStep::EvaluatingSecrets => 11,
        BuildStep::OpeningConfig => 12,
        BuildStep::Prompting => 13,
        BuildStep::WritingConfig => 14,
        BuildStep::FinalStatus => 15,
        BuildStep::Installing(InstallStep::Start) => 16,
        BuildStep::Installing(InstallStep::Checking) => 17,
        BuildStep::Installing(InstallStep::Importing) => 18,
        BuildStep::Installing(InstallStep::Reverting) => 19,
        BuildStep::Installing(InstallStep::Starting) => 20,
        BuildStep::Installing(InstallStep::Following) => 21,
        BuildStep::Installing(_) => 22,
        BuildStep::FinalStarting => 23,
        BuildStep::FinalFollowing => 24,
        BuildStep::Switching => 25,
        BuildStep::CleaningUp => 26,
        BuildStep::WritingShortcuts => 27,
        BuildStep::Done => 28,
        BuildStep::Failed => 28,
    }
}

/// A step leads onward: to a later step, or from a question to the next
/// question with one more answer held.
pub open spec fn moves_on(s: BuildStateView, next: BuildStateView) -> bool {
    &&& build_rank(next.step) > build_rank(s.step) || (s.step == BuildStep::Prompting && next.step
        == BuildStep::Prompting && next.answers.len() == s.answers.len() + 1)
    &&& next.step == BuildStep::Prompting ==> (next.stored matches Some(config)
        && next.answers.len() < missing(next.required, config.secrets).len())
}

proof fn lemma_early_steps_move_on(
    m: MachineView,
    no_update: bool,
    settings: SettingsView,
    s: BuildStateView,
    event: EventView,
)
    requires
        build_rank(s.step) <= 10,
    ensures
        moves_on(s, build_step(m, no_update, settings, s, event).0),
{
}

proof fn lemma_secret_steps_move_on(
    m: MachineView,
    no_update: bool,
    settings: SettingsView,
    s: BuildStateView,
    event: EventView,
)
    requires
        11 <= build_rank(s.step) <= 14,
    ensures
        moves_on(s, build_step(m, no_update, settings, s, event).0),
{
}

proof fn lemma_late_steps_move_on(
    m: MachineView,
    no_update: bool,
    settings: SettingsView,
    s: BuildStateView,
    event: EventView,
)
    requires
        15 <= build_rank(s.step) <= 27,
    ensures
        moves_on(s, build_step(m, no_update, settings, s, event).0),
{
}

/// A build always moves on: every step of a build that is not over leads
/// to a later step, except that a question may follow a question, and then
/// one more answer is held. A build asks only while answers are missing.
pub proof fn lemma_build_moves_on(
    m: MachineView,
    no_update: bool,
    settings: SettingsView,
    s: BuildStateView,
    event: EventView,
)
    requires
        s.step != BuildStep::Done,
        s.step != BuildStep::Failed,
    ensures
        moves_on(s, build_step(m, no_update, settings, s, event).0),
{
    if build_rank(s.step) <= 10 {
        lemma_early_steps_move_on(m, no_update, settings, s, event);
    } else if build_rank(s.step) <= 14 {
        lemma_secret_steps_move_on(m, no_update, settings, s, event);
    } else {
        lemma_late_steps_move_on(m, no_update, settings, s, event);
    }
}

/// The build description is written once: it is requested as the first
/// step of a build and never again, and no step leads back to the start.
pub proof fn lemma_flake_written_once(
    m: MachineView,
    no_update: bool,
    settings: SettingsView,
    s: BuildStateView,
    event: EventView,
)
    ensures
        build_step(m, no_update, settings, s, event).1.action is WriteFile <==> s.step
            == BuildStep::Start && event is Begin,
        build_step(m, no_update, settings, s, event).0.step != BuildStep::Start,
{
}

/// The step of a build that follows the reply `before` on `event`.
pub open spec fn after(
    m: MachineView,
    no_update: bool,
    settings: SettingsView,
    before: (BuildStateView, ReplyView),
    event: EventView,
) -> (BuildStateView, ReplyView) {
    build_step(m, no_update, settings, before.0, event)
}

/// The build of a fresh machine without local modules, as a whole run: with
/// the lock to be refreshed, no built system, no declared secrets, no
/// container, and a host on which every request succeeds, the build writes
/// the build description once, refreshes the lock before anything is
/// evaluated, installs the profile, writes the configuration without
/// secrets, imports the container, starts it for the first time, writes the
/// shortcuts and is done. Nothing is asked of the user and the system is
/// not switched.
pub proof fn lemma_fresh_build(
    m: MachineView,
    settings: SettingsView,
    ok: ProcessOutputView,
    opened: MachineConfigView,
)
    requires
        !has_local(m.config.modules),
        ok.success,
    ensures
        ({
            let name = m.config.name;
            let write = flake_write(m.config, settings);
            let plan = start_plan(m.config, settings);
            let done = EventView::Exit(ok);
            let absent = EventView::Status(PlatformStatus::NotInstalled);
            let r1 = build_step(m, false, settings, initial_build(), EventView::Begin);
            let r2 = after(m, false, settings, r1, EventView::Performed);
            let r3 = after(m, false, settings, r2, done);
            let r4 = after(m, false, settings, r3, done);
            let r5 = after(m, false, settings, r4, EventView::Answer(false));
            let r6 = after(m, false, settings, r5, done);
            let r7 = after(m, false, settings, r6, EventView::Secrets(Seq::empty()));
            let r8 = after(m, false, settings, r7, EventView::Config(opened));
            let r9 = after(m, false, settings, r8, EventView::Performed);
            let r10 = after(m, false, settings, r9, absent);
            let r11 = after(m, false, settings, r10, absent);
            let r12 = after(m, false, settings, r11, EventView::Performed);
            let r13 = after(m, false, settings, r12, done);
            let r14 = after(m, false, settings, r13, EventView::Performed);
            let r15 = after(m, false, settings, r14, EventView::Performed);
            &&& r1.1.action == (ActionView::WriteFile {
                dir: write.dir,
                file: write.file,
                text: write.text,
            })
            &&& r2.1.action == ActionView::Run(write.init)
            &&& r3.1.action == ActionView::Stream(update_command(settings, name))
            &&& r4.1.action == (ActionView::Marker {
                dir: HostDirView::MachineConfig(name),
                name: SYSTEM_MARKER@,
            })
            &&& r5.1.action == ActionView::Stream(
                build_command(settings, name, ProfileOp::Install),
            )
            &&& r6.1.action == eval_request(settings, name)
            &&& r7.1.action == (ActionView::OpenConfig { name, lock: true })
            &&& r8.1.action == ActionView::WriteConfig(
                MachineConfigView { secrets: Seq::empty(), ..opened },
            )
            &&& r9.1.action == status_query(settings, name)
            &&& r10.1.action == status_query(settings, name)
            &&& r11.1.action == import_request(name, settings)
            &&& r12.1.action == ActionView::Stream(plan.write_env)
            &&& r13.1.action == ActionView::Follow(plan.tail_log)
            &&& r14.1.action == (ActionView::Shortcuts { name, present: true })
            &&& r15 == (at(r14.0, BuildStep::Done), silent(ActionView::Done))
        }),
{
    let done = EventView::Exit(ok);
    let absent = EventView::Status(PlatformStatus::NotInstalled);
    let r1 = build_step(m, false, settings, initial_build(), EventView::Begin);
    let r2 = after(m, false, settings, r1, EventView::Performed);
    let r3 = after(m, false, settings, r2, done);
    let r4 = after(m, false, settings, r3, done);
    let r5 = after(m, false, settings, r4, EventView::Answer(false));
    let r6 = after(m, false, settings, r5, done);
    let r7 = after(m, false, settings, r6, EventView::Secrets(Seq::empty()));
    assert(r6.0.step == BuildStep::EvaluatingSecrets && !r6.0.awake);
    assert(r7.0.step == BuildStep::OpeningConfig && r7.0.required == Seq::<EnvSecretView>::empty());
    let r8 = after(m, false, settings, r7, EventView::Config(opened));
    assert(missing(Seq::<EnvSecretView>::empty(), opened.secrets) == Seq::<EnvSecretView>::empty());
    assert(reconciled(Seq::<EnvSecretView>::empty(), opened.secrets, Seq::empty()) == Seq::<
        SecretView,
    >::empty());
    assert(r8.0.step == BuildStep::WritingConfig);
    let r9 = after(m, false, settings, r8, EventView::Performed);
    let r10 = after(m, false, settings, r9, absent);
    assert(r10.0.step == BuildStep::Installing(InstallStep::Checking));
    let r11 = after(m, false, settings, r10, absent);
    assert(r11.0.step == BuildStep::Installing(InstallStep::Importing));
    let r12 = after(m, false, settings, r11, EventView::Performed);
    assert(r12.0.step == BuildStep::Installing(InstallStep::Starting));
    let r13 = after(m, false, settings, r12, done);
    assert(r13.0.step == BuildStep::Installing(InstallStep::Following));
    let r14 = after(m, false, settings, r13, EventView::Performed);
    assert(r14.0.step == BuildStep::WritingShortcuts);
}

/// The build of a stopped machine with local modules, as a whole run: with
/// a built system, nothing to ask the user, and a host on which every
/// request succeeds, the machine is started before the lock is refreshed or
/// anything is built, the keep-awake task runs while the profile is
/// upgraded in place and is killed right after, the secrets are written,
/// and the system is switched as the superuser, after another start where
/// the backend reports the machine stopped again. No import is requested.
pub proof fn lemma_local_build(
    m: MachineView,
    no_update: bool,
    settings: SettingsView,
    ok: ProcessOutputView,
    required: Seq<EnvSecretView>,
    opened: MachineConfigView,
    last: PlatformStatus,
)
    requires
        has_local(m.config.modules),
        ok.success,
        missing(required, opened.secrets).len() == 0,
        last != PlatformStatus::NotInstalled,
    ensures
        ({
            let name = m.config.name;
            let write = flake_write(m.config, settings);
            let plan = start_plan(m.config, settings);
            let done = EventView::Exit(ok);
            let r1 = build_step(m, no_update, settings, initial_build(), EventView::Begin);
            let r2 = after(m, no_update, settings, r1, EventView::Performed);
            let r3 = after(m, no_update, settings, r2, done);
            let r4 = after(m, no_update, settings, r3, EventView::Status(PlatformStatus::Stopped));
            let r5 = after(m, no_update, settings, r4, done);
            let r6 = after(m, no_update, settings, r5, EventView::Performed);
            let r7 = after(m, no_update, settings, r6, EventView::Performed);
            let r8 = if no_update {
                r7
            } else {
                after(m, no_update, settings, r7, done)
            };
            let r9 = after(m, no_update, settings, r8, EventView::Answer(true));
            let r10 = after(m, no_update, settings, r9, done);
            let r11 = after(m, no_update, settings, r10, done);
            let r12 = after(m, no_update, settings, r11, EventView::Secrets(required));
            let r13 = after(m, no_update, settings, r12, EventView::Config(opened));
            let r14 = after(m, no_update, settings, r13, EventView::Performed);
            let r15 = after(m, no_update, settings, r14, EventView::Status(last));
            let started = after(m, no_update, settings, r15, done);
            let r16 = if last == PlatformStatus::Running {
                r15
            } else {
                after(m, no_update, settings, started, EventView::Performed)
            };
            let r17 = after(m, no_update, settings, r16, done);
            let r18 = after(m, no_update, settings, r17, EventView::Performed);
            &&& r1.1.action is WriteFile
            &&& r2.1.action == ActionView::Run(write.init)
            &&& r3.1.action == status_query(settings, name)
            &&& r4.1.action == ActionView::Stream(plan.write_env)
            &&& r5.1.action == ActionView::Follow(plan.tail_log)
            &&& r6.1.action == ActionView::Spawn(awaker_command(settings, name))
            &&& !no_update ==> r7.1.action == ActionView::Stream(update_command(settings, name))
            &&& r8.1.action is Marker
            &&& r9.1.action == ActionView::Stream(
                build_command(settings, name, ProfileOp::Upgrade),
            )
            &&& r9.0.awake
            &&& r10.1.action == ActionView::Run(kill_command(settings, name))
            &&& r11.1.action == eval_request(settings, name)
            &&& !r11.0.awake
            &&& r12.1.action == (ActionView::OpenConfig { name, lock: true })
            &&& r13.1.action == ActionView::WriteConfig(
                MachineConfigView {
                    secrets: reconciled(required, opened.secrets, Seq::empty()),
                    ..opened
                },
            )
            &&& r14.1.action == status_query(settings, name)
            &&& last == PlatformStatus::Stopped ==> r15.1.action == ActionView::Stream(
                plan.write_env,
            ) && started.1.action == ActionView::Follow(plan.tail_log)
            &&& r16.1.action == ActionView::Run(switch_command(settings, name))
            &&& switch_command(settings, name).user == Some(LinuxUser::Root)
            &&& r17.1.action == (ActionView::Shortcuts { name, present: true })
            &&& r18 == (at(r17.0, BuildStep::Done), silent(ActionView::Done))
        }),
{
    let done = EventView::Exit(ok);
    let r1 = build_step(m, no_update, settings, initial_build(), EventView::Begin);
    let r2 = after(m, no_update, settings, r1, EventView::Performed);
    let r3 = after(m, no_update, settings, r2, done);
    assert(r3.0.step == BuildStep::LocalStatus);
    let r4 = after(m, no_update, settings, r3, EventView::Status(PlatformStatus::Stopped));
    let r5 = after(m, no_update, settings, r4, done);
    let r6 = after(m, no_update, settings, r5, EventView::Performed);
    assert(r6.0.step == BuildStep::SpawningAwaker && r6.0.awake);
    let r7 = after(m, no_update, settings, r6, EventView::Performed);
    let r8 = if no_update {
        r7
    } else {
        after(m, no_update, settings, r7, done)
    };
    assert(r8.0.step == BuildStep::ProbingProfile && r8.0.awake);
    lemma_local_build_ends(m, no_update, settings, ok, required, opened, last, r8.0);
}

/// The second half of [`lemma_local_build`], from the probe for the built
/// system on.
proof fn lemma_local_build_ends(
    m: MachineView,
    no_update: bool,
    settings: SettingsView,
    ok: ProcessOutputView,
    required: Seq<EnvSecretView>,
    opened: MachineConfigView,
    last: PlatformStatus,
    s: BuildStateView,
)
    requires
        ok.success,
        missing(required, opened.secrets).len() == 0,
        last != PlatformStatus::NotInstalled,
        s.step == BuildStep::ProbingProfile,
        s.awake,
    ensures
        ({
            let name = m.config.name;
            let plan = start_plan(m.config, settings);
            let done = EventView::Exit(ok);
            let r9 = build_step(m, no_update, settings, s, EventView::Answer(true));
            let r10 = after(m, no_update, settings, r9, done);
            let r11 = after(m, no_update, settings, r10, done);
            let r12 = after(m, no_update, settings, r11, EventView::Secrets(required));
            let r13 = after(m, no_update, settings, r12, EventView::Config(opened));
            let r14 = after(m, no_update, settings, r13, EventView::Performed);
            let r15 = after(m, no_update, settings, r14, EventView::Status(last));
            let started = after(m, no_update, settings, r15, done);
            let r16 = if last == PlatformStatus::Running {
                r15
            } else {
                after(m, no_update, settings, started, EventView::Performed)
            };
            let r17 = after(m, no_update, settings, r16, done);
            let r18 = after(m, no_update, settings, r17, EventView::Performed);
            &&& r9.1.action == ActionView::Stream(
                build_command(settings, name, ProfileOp::Upgrade),
            )
            &&& r9.0.awake
            &&& r10.1.action == ActionView::Run(kill_command(settings, name))
            &&& r11.1.action == eval_request(settings, name)
            &&& !r11.0.awake
            &&& r12.1.action == (ActionView::OpenConfig { name, lock: true })
            &&& r13.1.action == ActionView::WriteConfig(
                MachineConfigView {
                    secrets: reconciled(required, opened.secrets, Seq::empty()),
                    ..opened
                },
            )
            &&& r14.1.action == status_query(settings, name)
            &&& last == PlatformStatus::Stopped ==> r15.1.action == ActionView::Stream(
                plan.write_env,
            ) && started.1.action == ActionView::Follow(plan.tail_log)
            &&& r16.1.action == ActionView::Run(switch_command(settings, name))
            &&& r17.1.action == (ActionView::Shortcuts { name, present: true })
            &&& r18 == (at(r17.0, BuildStep::Done), silent(ActionView::Done))
        }),
{
    let done = EventView::Exit(ok);
    let r9 = build_step(m, no_update, settings, s, EventView::Answer(true));
    let r10 = after(m, no_update, settings, r9, done);
    assert(r10.0.step == BuildStep::KillingAwaker);
    let r11 = after(m, no_update, settings, r10, done);
    let r12 = after(m, no_update, settings, r11, EventView::Secrets(required));
    assert(r12.0.step == BuildStep::OpeningConfig && r12.0.required == required);
    let r13 = after(m, no_update, settings, r12, EventView::Config(opened));
    assert(r13.0.step == BuildStep::WritingConfig);
    let r14 = after(m, no_update, settings, r13, EventView::Performed);
    let r15 = after(m, no_update, settings, r14, EventView::Status(last));
    let started = after(m, no_update, settings, r15, done);
    let r16 = if last == PlatformStatus::Running {
        r15
    } else {
        after(m, no_update, settings, started, EventView::Performed)
    };
    assert(r16.0.step == BuildStep::Switching);
    let r17 = after(m, no_update, settings, r16, done);
    assert(r17.0.step == BuildStep::WritingShortcuts);
}

} // verus!
