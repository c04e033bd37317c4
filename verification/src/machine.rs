//! A machine: its durable configuration with the two status fields that
//! are derived afresh on every check, and the backend-specific requests that
//! the lifecycle operations are made of.

use crate::backend::{imported, status_in, switched, Registry};
use crate::command::{
    backend_call, backend_command, HostCommand, HostCommandView, LinuxCommandBuilder,
    LinuxCommandDriver, LinuxCommandView, ProgramView,
};
use crate::config::{
    init_log_path, machine_dir, machine_instance, LinuxUser, MachineConfig, MachineConfigView,
    Settings, SettingsView,
};
use crate::flake::{flake_write, plan_flake_write, FlakeWrite};
use crate::install::{install_machine, install_step, InstallStep};
use crate::protocol::{
    saying, Action, ActionView, Error, ErrorView, Event, Reply, StartPlan, StartPlanView,
};
use crate::scripts::{
    init_env_script, render_init_env, render_tail_log, tail_log_script, update_flake_script,
};
use crate::status::{derived_status, output_changed, shows_change, ConfigStatus, PlatformStatus};
use crate::text::{concat3, same};
use vstd::prelude::*;
use vstd::string::*;

verus! {

/// The entry of a machine's configuration directory that marks a built
/// system.
pub const SYSTEM_MARKER: &'static str = "system";

/// One Linux execution environment with its configuration and secrets. The
/// two status fields are not stored anywhere: they say what the last check
/// found.
#[derive(Debug, PartialEq, Eq)]
pub struct Machine {
    pub config: MachineConfig,
    pub config_status: ConfigStatus,
    pub platform_status: PlatformStatus,
}

/// Mathematical value of a [`Machine`].
#[verifier::ext_equal]
pub struct MachineView {
    pub config: MachineConfigView,
    pub config_status: ConfigStatus,
    pub platform_status: PlatformStatus,
}

impl View for Machine {
    type V = MachineView;

    open spec fn view(&self) -> MachineView {
        MachineView {
            config: self.config@,
            config_status: self.config_status,
            platform_status: self.platform_status,
        }
    }
}

impl DeepView for Machine {
    type V = MachineView;

    open spec fn deep_view(&self) -> MachineView {
        self@
    }
}

impl Clone for Machine {
    fn clone(&self) -> (r: Self)
        ensures
            r@ == self@,
    {
        Machine {
            config: self.config.clone(),
            config_status: self.config_status,
            platform_status: self.platform_status,
        }
    }
}

/// What a status check has found out about one machine.
#[derive(Debug, PartialEq, Eq)]
pub struct StatusProbe {
    /// The run-state that the backend reports.
    pub platform: PlatformStatus,
    /// Whether the built-system marker exists.
    pub marker_present: bool,
    /// What the diff of the build recipe printed; empty if it was not run.
    pub recipe_diff: Vec<u8>,
    /// What the diff of the dependency lock printed; empty if it was not run.
    pub lock_diff: Vec<u8>,
}

/// Mathematical value of a [`StatusProbe`].
#[verifier::ext_equal]
pub struct StatusProbeView {
    pub platform: PlatformStatus,
    pub marker_present: bool,
    pub recipe_diff: Seq<u8>,
    pub lock_diff: Seq<u8>,
}

impl View for StatusProbe {
    type V = StatusProbeView;

    open spec fn view(&self) -> StatusProbeView {
        StatusProbeView {
            platform: self.platform,
            marker_present: self.marker_present,
            recipe_diff: self.recipe_diff@,
            lock_diff: self.lock_diff@,
        }
    }
}

impl DeepView for StatusProbe {
    type V = StatusProbeView;

    open spec fn deep_view(&self) -> StatusProbeView {
        self@
    }
}

/// A script in the store, run in `cwd`.
pub open spec fn store_script(
    settings: SettingsView,
    script: Seq<char>,
    cwd: Option<Seq<char>>,
) -> LinuxCommandView {
    LinuxCommandView {
        instance: settings.store_name,
        program: ProgramView::Script(script),
        user: None,
        cwd,
        env: Seq::empty(),
    }
}

/// A program in the store, run in `cwd`.
pub open spec fn store_run(
    settings: SettingsView,
    program: Seq<char>,
    args: Seq<Seq<char>>,
    cwd: Option<Seq<char>>,
) -> LinuxCommandView {
    LinuxCommandView {
        instance: settings.store_name,
        program: ProgramView::Run { program, args },
        user: None,
        cwd,
        env: Seq::empty(),
    }
}

/// A program in the machine called `name`, run as `user`.
pub open spec fn machine_run(
    settings: SettingsView,
    name: Seq<char>,
    program: Seq<char>,
    args: Seq<Seq<char>>,
    user: Option<LinuxUser>,
) -> LinuxCommandView {
    LinuxCommandView {
        instance: machine_instance(settings, name),
        program: ProgramView::Run { program, args },
        user,
        cwd: None,
        env: Seq::empty(),
    }
}

/// The machine after a status check: the run-state is what the backend
/// reports, and the build-state follows from it, the marker and the diffs.
pub open spec fn refreshed(machine: MachineView, probe: StatusProbeView) -> MachineView {
    MachineView {
        config: machine.config,
        platform_status: probe.platform,
        config_status: derived_status(
            probe.platform,
            probe.marker_present,
            shows_change(probe.recipe_diff),
            shows_change(probe.lock_diff),
        ),
    }
}

/// A machine as it is read from its configuration: not installed, until a
/// status check says otherwise.
pub open spec fn fresh(config: MachineConfigView) -> MachineView {
    MachineView {
        config,
        config_status: ConfigStatus::NotInstalled,
        platform_status: PlatformStatus::NotInstalled,
    }
}

/// A machine as it is read from its configuration and, if there is one, a
/// status check.
pub open spec fn read_machine(
    config: MachineConfigView,
    probe: Option<StatusProbeView>,
) -> MachineView {
    match probe {
        Some(p) => refreshed(fresh(config), p),
        None => fresh(config),
    }
}

/// The first position at or after `from` whose configuration is called
/// `name`.
pub open spec fn config_from(configs: Seq<MachineConfigView>, name: Seq<char>, from: int) -> Option<
    int,
>
    decreases configs.len() - from,
{
    if from < 0 || from >= configs.len() {
        None
    } else if configs[from].name == name {
        Some(from)
    } else {
        config_from(configs, name, from + 1)
    }
}

/// What starting a machine consists of.
pub open spec fn start_plan(config: MachineConfigView, settings: SettingsView) -> StartPlanView {
    StartPlanView {
        write_env: store_script(
            settings,
            init_env_script(config.name, config.secrets, settings),
            None,
        ),
        tail_log: store_script(
            settings,
            tail_log_script(init_log_path(settings, config.name), settings),
            None,
        ),
    }
}

/// The command that diffs one tracked file of machine `name` against its
/// recorded version.
pub open spec fn diff_command(
    settings: SettingsView,
    name: Seq<char>,
    file: Seq<char>,
) -> LinuxCommandView {
    store_run(
        settings,
        "git"@,
        seq!["diff"@, file],
        Some(machine_dir(settings.store_dir_config, name)),
    )
}

/// The command that refreshes the dependency lock of machine `name`.
pub open spec fn update_command(settings: SettingsView, name: Seq<char>) -> LinuxCommandView {
    store_script(
        settings,
        update_flake_script(),
        Some(machine_dir(settings.store_dir_config, name)),
    )
}

/// The line shown while a machine's init script runs.
pub open spec fn init_script_text(name: Seq<char>) -> Seq<char> {
    "Running init script of machine '"@ + name + "'..."@
}

/// The command that an interactive session runs: the first word is the
/// program, the others are its arguments; without words it is the
/// machine's shell.
pub open spec fn exec_command(
    settings: SettingsView,
    name: Seq<char>,
    words: Seq<Seq<char>>,
) -> LinuxCommandView {
    if words.len() == 0 {
        LinuxCommandView {
            instance: machine_instance(settings, name),
            program: ProgramView::Shell,
            user: None,
            cwd: None,
            env: Seq::empty(),
        }
    } else {
        machine_run(settings, name, words[0], words.subrange(1, words.len() as int), None)
    }
}

/// The call of the backend that kills the container of machine `name`.
pub open spec fn terminate_call(settings: SettingsView, name: Seq<char>) -> HostCommandView {
    backend_call(settings, seq!["--terminate"@, machine_instance(settings, name)])
}

/// The call of the backend that unregisters the container of machine `name`.
pub open spec fn unregister_call(settings: SettingsView, name: Seq<char>) -> HostCommandView {
    backend_call(settings, seq!["--unregister"@, machine_instance(settings, name)])
}

/// The driver that reaches the store container.
pub fn store_driver(settings: &Settings) -> (r: LinuxCommandDriver)
    ensures
        r@ == settings@.store_name,
{
    LinuxCommandDriver { instance_name: settings.store_name.clone() }
}

/// What a backend has to offer for a machine. Each method gives the request
/// that the host performs; none of them acts by itself.
pub trait MachineDriver: Sized {
    /// The driver that reaches the machine's container.
    fn cmd(&self, settings: &Settings) -> LinuxCommandDriver;

    /// Whether the container called after `name` is running, stopped or not
    /// installed, in a backend with the given instances.
    fn read_platform_status(name: &str, backend: &Registry, settings: &Settings) -> PlatformStatus;

    /// Import and configure the container: the next step of the
    /// installation.
    fn install(&self, step: InstallStep, event: Event, settings: &Settings) -> (InstallStep, Reply);

    /// Start the container.
    fn start(&self, settings: &Settings) -> StartPlan;

    /// Stop the container, by force if asked.
    fn stop(&self, force: bool, settings: &Settings) -> HostCommand;

    /// Delete the container.
    fn delete_container(&self, settings: &Settings) -> HostCommand;

    /// The command of an interactive session in the container.
    fn create_exec_cmd(&self, cmd: &[&str], settings: &Settings) -> LinuxCommandBuilder;
}

impl MachineDriver for Machine {
    fn cmd(&self, settings: &Settings) -> (r: LinuxCommandDriver)
        ensures
            r@ == machine_instance(settings@, self.config@.name),
    {
        LinuxCommandDriver { instance_name: settings.machine_name(self.config.name.as_str()) }
    }

    fn read_platform_status(name: &str, backend: &Registry, settings: &Settings) -> (r:
        PlatformStatus)
        ensures
            r == status_in(backend@, machine_instance(settings@, name@)),
    {
        let instance = settings.machine_name(name);
        backend.status(instance.as_str())
    }

    fn install(&self, step: InstallStep, event: Event, settings: &Settings) -> (r: (
        InstallStep,
        Reply,
    ))
        ensures
            (r.0, r.1@) == install_step(self.config@, settings@, step, event@),
    {
        install_machine(self, step, event, settings)
    }

    fn start(&self, settings: &Settings) -> (r: StartPlan)
        ensures
            r@ == start_plan(self.config@, settings@),
    {
        let store = store_driver(settings);
        let write_env = store.script(
            render_init_env(self.config.name.as_str(), &self.config.secrets, settings),
        );
        let log = settings.init_log(self.config.name.as_str());
        let tail_log = store.script(render_tail_log(log.0.as_str(), settings));
        StartPlan { write_env, tail_log }
    }

    /// This backend can only terminate a container, whatever `force` says.
    fn stop(&self, force: bool, settings: &Settings) -> (r: HostCommand)
        ensures
            r@ == terminate_call(settings@, self.config@.name),
    {
        let instance = settings.machine_name(self.config.name.as_str());
        backend_command(settings, "--terminate", instance.as_str())
    }

    fn delete_container(&self, settings: &Settings) -> (r: HostCommand)
        ensures
            r@ == unregister_call(settings@, self.config@.name),
    {
        let instance = settings.machine_name(self.config.name.as_str());
        backend_command(settings, "--unregister", instance.as_str())
    }

    fn create_exec_cmd(&self, cmd: &[&str], settings: &Settings) -> (r: LinuxCommandBuilder)
        ensures
            r@ == exec_command(settings@, self.config@.name, cmd.deep_view()),
    {
        let driver = self.cmd(settings);
        if cmd.len() == 0 {
            driver.shell()
        } else {
            let mut args: Vec<&str> = Vec::new();
            let mut i: usize = 1;
            while i < cmd.len()
                invariant
                    1 <= i <= cmd.len(),
                    args.len() == i - 1,
                    forall|j: int| 0 <= j < i - 1 ==> args@[j]@ == cmd@[j + 1]@,
                decreases cmd.len() - i,
            {
                args.push(cmd[i]);
                i = i + 1;
            }
            driver.run_words(cmd[0], args)
        }
    }
}

impl StatusProbe {
    /// Whether the diff check has to run: only an installed machine with a
    /// built system has anything to compare.
    pub fn needs_diff(platform: PlatformStatus, marker_present: bool) -> (r: bool)
        ensures
            r == (platform != PlatformStatus::NotInstalled && marker_present),
    {
        platform != PlatformStatus::NotInstalled && marker_present
    }
}

impl Machine {
    /// Takes over what a status check has found. The run-state is the
    /// backend's; the build-state is `NotInstalled` without a container or
    /// without the built-system marker, and otherwise follows the diffs.
    pub fn update_status(self, probe: &StatusProbe) -> (r: Machine)
        ensures
            r@ == refreshed(self@, probe@),
    {
        let recipe_changed = output_changed(&probe.recipe_diff);
        let lock_changed = output_changed(&probe.lock_diff);
        Machine {
            config: self.config,
            platform_status: probe.platform,
            config_status: ConfigStatus::derive(
                probe.platform,
                probe.marker_present,
                recipe_changed,
                lock_changed,
            ),
        }
    }

    /// The machine of a configuration. Without a status check both status
    /// fields say `NotInstalled`.
    pub fn read(config: MachineConfig, probe: Option<&StatusProbe>) -> (r: Machine)
        ensures
            r@ == read_machine(config@, probe.deep_view()),
    {
        let machine = Machine {
            config,
            config_status: ConfigStatus::NotInstalled,
            platform_status: PlatformStatus::NotInstalled,
        };
        match probe {
            Some(p) => machine.update_status(p),
            None => machine,
        }
    }

    /// The machine called `name` among the stored configurations, or an
    /// error if there is none.
    pub fn by_name(name: &str, configs: &Vec<MachineConfig>, probe: Option<&StatusProbe>) -> (r:
        Result<Machine, Error>)
        ensures
            match config_from(configs.deep_view(), name@, 0) {
                Some(i) => r matches Ok(m) && m@ == read_machine(
                    configs.deep_view()[i],
                    probe.deep_view(),
                ),
                None => r matches Err(e) && e@ == ErrorView::NotFound(name@),
            },
    {
        let ghost all = configs.deep_view();
        let mut i: usize = 0;
        while i < configs.len()
            invariant
                i <= configs.len(),
                all == configs.deep_view(),
                config_from(all, name@, 0) == config_from(all, name@, i as int),
            decreases configs.len() - i,
        {
            if same(configs[i].name.as_str(), name) {
                return Ok(Machine::read(configs[i].clone(), probe));
            }
            i = i + 1;
        }
        Err(Error::NotFound(String::from_str(name)))
    }

    /// The machines of all stored configurations, in the same order, each
    /// with the status check that belongs to it, if it has one.
    pub fn list(entries: Vec<(MachineConfig, Option<StatusProbe>)>) -> (r: Vec<Machine>)
        ensures
            r.len() == entries.len(),
            forall|i: int|
                0 <= i < entries.len() ==> (#[trigger] r[i])@ == read_machine(
                    entries[i].0@,
                    entries[i].1.deep_view(),
                ),
    {
        let mut r: Vec<Machine> = Vec::new();
        let mut i: usize = 0;
        while i < entries.len()
            invariant
                i <= entries.len(),
                r.len() == i,
                forall|j: int|
                    0 <= j < i ==> (#[trigger] r[j])@ == read_machine(
                        entries[j].0@,
                        entries[j].1.deep_view(),
                    ),
            decreases entries.len() - i,
        {
            let machine = match &entries[i].1 {
                Some(p) => Machine::read(entries[i].0.clone(), Some(p)),
                None => Machine::read(entries[i].0.clone(), None),
            };
            r.push(machine);
            i = i + 1;
        }
        r
    }

    /// The two commands of the diff check: the build recipe first, the
    /// dependency lock second.
    pub fn diff_commands(&self, settings: &Settings) -> (r: (
        LinuxCommandBuilder,
        LinuxCommandBuilder,
    ))
        ensures
            r.0@ == diff_command(settings@, self.config@.name, "flake.nix"@),
            r.1@ == diff_command(settings@, self.config@.name, "flake.lock"@),
    {
        let store = store_driver(settings);
        let mut recipe_args: Vec<&str> = Vec::new();
        recipe_args.push("diff");
        recipe_args.push("flake.nix");
        let mut lock_args: Vec<&str> = Vec::new();
        lock_args.push("diff");
        lock_args.push("flake.lock");
        let recipe = store.run_words("git", recipe_args).with_cwd(
            settings.machine_config_dir(self.config.name.as_str()),
        );
        let lock = store.run_words("git", lock_args).with_cwd(
            settings.machine_config_dir(self.config.name.as_str()),
        );
        (recipe, lock)
    }

    /// What writing the machine's build description consists of.
    pub fn write_flake(&self, settings: &Settings) -> (r: FlakeWrite)
        ensures
            r@ == flake_write(self.config@, settings@),
    {
        plan_flake_write(&self.config, settings)
    }

    /// The store-side command that refreshes the machine's dependency lock.
    /// Its output belongs in the debug log.
    pub fn update_flake(&self, settings: &Settings) -> (r: LinuxCommandBuilder)
        ensures
            r@ == update_command(settings@, self.config@.name),
    {
        store_driver(settings).script(String::from_str("ndd $NIX_VERBOSITY flake update")).with_cwd(
            settings.machine_config_dir(self.config.name.as_str()),
        )
    }

    /// Runs the machine's init script: the line to show, and the command to
    /// wait for.
    pub fn run_init_script(&self, settings: &Settings) -> (r: Reply)
        ensures
            r@ == saying(
                init_script_text(self.config@.name),
                ActionView::Run(
                    machine_run(
                        settings@,
                        self.config@.name,
                        "codchi-init"@,
                        Seq::empty(),
                        None,
                    ),
                ),
            ),
    {
        let none: Vec<&str> = Vec::new();
        let command = self.cmd(settings).run_words("codchi-init", none);
        Reply {
            message: Some(
                concat3("Running init script of machine '", self.config.name.as_str(), "'..."),
            ),
            action: Action::Run(command),
        }
    }
}

/// Before any install a status check finds nothing: for every name, in a
/// backend that has no instance of that name, the run-state is
/// `NotInstalled`, and so is the build-state, whatever the marker and the
/// diffs say.
pub proof fn lemma_status_before_install(
    backend: Map<Seq<char>, bool>,
    settings: SettingsView,
    config: MachineConfigView,
    probe: StatusProbeView,
)
    requires
        !backend.dom().contains(machine_instance(settings, config.name)),
        probe.platform == status_in(backend, machine_instance(settings, config.name)),
    ensures
        read_machine(config, Some(probe)).platform_status == PlatformStatus::NotInstalled,
        read_machine(config, Some(probe)).config_status == ConfigStatus::NotInstalled,
        read_machine(config, None).platform_status == PlatformStatus::NotInstalled,
        read_machine(config, None).config_status == ConfigStatus::NotInstalled,
{
}

/// What a status check says of an installed machine with a built system
/// follows from the diffs alone: no change gives `UpToDate`, a change of
/// the lock alone gives `UpdatesAvailable`, and a change of the recipe
/// gives `Modified` whatever the lock.
pub proof fn lemma_diff_semantics(machine: MachineView, probe: StatusProbeView)
    requires
        probe.platform != PlatformStatus::NotInstalled,
        probe.marker_present,
    ensures
        shows_change(probe.recipe_diff) ==> refreshed(machine, probe).config_status
            == ConfigStatus::Modified,
        !shows_change(probe.recipe_diff) && shows_change(probe.lock_diff) ==> refreshed(
            machine,
            probe,
        ).config_status == ConfigStatus::UpdatesAvailable,
        !shows_change(probe.recipe_diff) && !shows_change(probe.lock_diff) ==> refreshed(
            machine,
            probe,
        ).config_status == ConfigStatus::UpToDate,
{
}

/// After a first install a clean machine reads as running and up to date:
/// in a backend that has registered the import and runs what was started,
/// with the built-system marker in place and no difference in recipe or
/// lock, a status check finds `Running` and `UpToDate`.
pub proof fn lemma_after_first_install(
    backend: Map<Seq<char>, bool>,
    settings: SettingsView,
    config: MachineConfigView,
    probe: StatusProbeView,
)
    requires
        ({
            let instance = machine_instance(settings, config.name);
            probe.platform == status_in(
                switched(imported(backend, instance), instance, true),
                instance,
            )
        }),
        probe.marker_present,
        !shows_change(probe.recipe_diff),
        !shows_change(probe.lock_diff),
    ensures
        read_machine(config, Some(probe)).platform_status == PlatformStatus::Running,
        read_machine(config, Some(probe)).config_status == ConfigStatus::UpToDate,
{
}

/// A built system that the backend does not know is not installed: the
/// marker alone does not count, and neither does a container without it.
pub proof fn lemma_partial_install(machine: MachineView, probe: StatusProbeView)
    requires
        probe.platform == PlatformStatus::NotInstalled || !probe.marker_present,
    ensures
        refreshed(machine, probe).config_status == ConfigStatus::NotInstalled,
{
}

} // verus!
