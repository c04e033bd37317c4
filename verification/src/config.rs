//! Plain data that the orchestration works on: paths inside a Linux
//! instance, a machine's durable configuration, declared secrets, and the
//! snapshot of process-wide settings that every operation receives.

use crate::text::{concat2, concat3};
use vstd::prelude::*;
use vstd::string::*;

verus! {

/// An absolute path inside a Linux instance.
#[derive(Debug, PartialEq, Eq)]
pub struct LinuxPath(pub String);

impl View for LinuxPath {
    type V = Seq<char>;

    open spec fn view(&self) -> Seq<char> {
        self.0@
    }
}

impl DeepView for LinuxPath {
    type V = Seq<char>;

    open spec fn deep_view(&self) -> Seq<char> {
        self.0@
    }
}

impl Clone for LinuxPath {
    fn clone(&self) -> (r: Self)
        ensures
            r@ == self@,
    {
        LinuxPath(self.0.clone())
    }
}

impl LinuxPath {
    /// The path of the entry `name` below this directory.
    pub fn join_str(&self, name: &str) -> (r: LinuxPath)
        ensures
            r@ == self@ + "/"@ + name@,
    {
        LinuxPath(concat3(self.0.as_str(), "/", name))
    }

    /// The store's directory below this directory.
    pub fn join_store(&self) -> (r: LinuxPath)
        ensures
            r@ == self@ + "/"@ + "store"@,
    {
        self.join_str("store")
    }

    /// The directory of machine `name` below this directory.
    pub fn join_machine(&self, name: &str) -> (r: LinuxPath)
        ensures
            r@ == self@ + "/"@ + ("machine/"@ + name@),
    {
        let sub = concat2("machine/", name);
        self.join_str(sub.as_str())
    }
}

/// The user that a command runs as inside an instance.
#[derive(Debug, PartialEq, Eq, Clone, Copy, Structural)]
pub enum LinuxUser {
    /// The superuser.
    Root,
    /// The unprivileged default user of the instance.
    Default,
}

/// Where a module's sources come from.
#[derive(Debug, PartialEq, Eq, Clone, Copy, Structural)]
pub enum FlakeLocation {
    /// A remote repository.
    Remote,
    /// A directory inside the machine itself.
    Local,
}

/// One module of a machine's build description.
#[derive(Debug, PartialEq, Eq)]
pub struct Module {
    /// The name of the flake input.
    pub name: String,
    /// Where the sources come from.
    pub location: FlakeLocation,
    /// The resolved source locator.
    pub url: String,
    /// The attribute of the input that holds the module.
    pub flake_attr: String,
}

/// Mathematical value of a [`Module`].
#[verifier::ext_equal]
pub struct ModuleView {
    pub name: Seq<char>,
    pub location: FlakeLocation,
    pub url: Seq<char>,
    pub flake_attr: Seq<char>,
}

impl View for Module {
    type V = ModuleView;

    open spec fn view(&self) -> ModuleView {
        ModuleView {
            name: self.name@,
            location: self.location,
            url: self.url@,
            flake_attr: self.flake_attr@,
        }
    }
}

impl DeepView for Module {
    type V = ModuleView;

    open spec fn deep_view(&self) -> ModuleView {
        self@
    }
}

impl Clone for Module {
    fn clone(&self) -> (r: Self)
        ensures
            r@ == self@,
    {
        Module {
            name: self.name.clone(),
            location: self.location,
            url: self.url.clone(),
            flake_attr: self.flake_attr.clone(),
        }
    }
}

/// A secret with its stored value.
#[derive(Debug, PartialEq, Eq)]
pub struct Secret {
    pub name: String,
    pub value: String,
}

/// Mathematical value of a [`Secret`].
#[verifier::ext_equal]
pub struct SecretView {
    pub name: Seq<char>,
    pub value: Seq<char>,
}

impl View for Secret {
    type V = SecretView;

    open spec fn view(&self) -> SecretView {
        SecretView { name: self.name@, value: self.value@ }
    }
}

impl DeepView for Secret {
    type V = SecretView;

    open spec fn deep_view(&self) -> SecretView {
        self@
    }
}

impl Clone for Secret {
    fn clone(&self) -> (r: Self)
        ensures
            r@ == self@,
    {
        Secret { name: self.name.clone(), value: self.value.clone() }
    }
}

/// A secret that a machine's configuration declares as required.
#[derive(Debug, PartialEq, Eq)]
pub struct EnvSecret {
    pub name: String,
    /// Human-readable explanation, shown as help while prompting.
    pub description: String,
}

/// Mathematical value of an [`EnvSecret`].
#[verifier::ext_equal]
pub struct EnvSecretView {
    pub name: Seq<char>,
    pub description: Seq<char>,
}

impl View for EnvSecret {
    type V = EnvSecretView;

    open spec fn view(&self) -> EnvSecretView {
        EnvSecretView { name: self.name@, description: self.description@ }
    }
}

impl DeepView for EnvSecret {
    type V = EnvSecretView;

    open spec fn deep_view(&self) -> EnvSecretView {
        self@
    }
}

impl Clone for EnvSecret {
    fn clone(&self) -> (r: Self)
        ensures
            r@ == self@,
    {
        EnvSecret { name: self.name.clone(), description: self.description.clone() }
    }
}

/// The durable part of a machine: what the configuration store keeps of it.
#[derive(Debug, PartialEq, Eq)]
pub struct MachineConfig {
    /// Unique name, usable as a path segment and as part of an instance name.
    pub name: String,
    /// The module whose package set the machine follows, if any.
    pub nixpkgs_from: Option<String>,
    /// The modules that compose the configuration, in declaration order.
    pub modules: Vec<Module>,
    /// The secrets that have a stored value.
    pub secrets: Vec<Secret>,
}

/// Mathematical value of a [`MachineConfig`].
#[verifier::ext_equal]
pub struct MachineConfigView {
    pub name: Seq<char>,
    pub nixpkgs_from: Option<Seq<char>>,
    pub modules: Seq<ModuleView>,
    pub secrets: Seq<SecretView>,
}

/// No two secrets have the same name.
pub open spec fn distinct_secrets(secrets: Seq<SecretView>) -> bool {
    forall|i: int, j: int|
        0 <= i < j < secrets.len() ==> (#[trigger] secrets[i]).name != (#[trigger] secrets[j]).name
}

/// No two modules have the same name.
pub open spec fn distinct_modules(modules: Seq<ModuleView>) -> bool {
    forall|i: int, j: int|
        0 <= i < j < modules.len() ==> (#[trigger] modules[i]).name != (#[trigger] modules[j]).name
}

impl MachineConfigView {
    /// A configuration names every module once and every secret once.
    pub open spec fn well_formed(self) -> bool {
        distinct_modules(self.modules) && distinct_secrets(self.secrets)
    }
}

impl View for MachineConfig {
    type V = MachineConfigView;

    open spec fn view(&self) -> MachineConfigView {
        MachineConfigView {
            name: self.name@,
            nixpkgs_from: self.nixpkgs_from.deep_view(),
            modules: self.modules.deep_view(),
            secrets: self.secrets.deep_view(),
        }
    }
}

impl DeepView for MachineConfig {
    type V = MachineConfigView;

    open spec fn deep_view(&self) -> MachineConfigView {
        self@
    }
}

/// A copy of an optional string.
pub fn clone_opt(s: &Option<String>) -> (r: Option<String>)
    ensures
        r.deep_view() == s.deep_view(),
{
    match s {
        Some(t) => Some(t.clone()),
        None => None,
    }
}

/// A copy of a list of strings.
pub fn clone_strings(v: &Vec<String>) -> (r: Vec<String>)
    ensures
        r.deep_view() == v.deep_view(),
{
    let mut r: Vec<String> = Vec::new();
    let mut i: usize = 0;
    while i < v.len()
        invariant
            i <= v.len(),
            r.len() == i,
            forall|j: int| 0 <= j < i ==> r@[j]@ == v@[j]@,
        decreases v.len() - i,
    {
        r.push(v[i].clone());
        i = i + 1;
    }
    r
}

/// A copy of a list of modules.
pub fn clone_modules(v: &Vec<Module>) -> (r: Vec<Module>)
    ensures
        r.deep_view() == v.deep_view(),
{
    let mut r: Vec<Module> = Vec::new();
    let mut i: usize = 0;
    while i < v.len()
        invariant
            i <= v.len(),
            r.len() == i,
            forall|j: int| 0 <= j < i ==> r@[j]@ == v@[j]@,
        decreases v.len() - i,
    {
        r.push(v[i].clone());
        i = i + 1;
    }
    r
}

/// A copy of a list of stored secrets.
pub fn clone_secrets(v: &Vec<Secret>) -> (r: Vec<Secret>)
    ensures
        r.deep_view() == v.deep_view(),
{
    let mut r: Vec<Secret> = Vec::new();
    let mut i: usize = 0;
    while i < v.len()
        invariant
            i <= v.len(),
            r.len() == i,
            forall|j: int| 0 <= j < i ==> r@[j]@ == v@[j]@,
        decreases v.len() - i,
    {
        r.push(v[i].clone());
        i = i + 1;
    }
    r
}

/// A copy of a list of required secrets.
pub fn clone_env_secrets(v: &Vec<EnvSecret>) -> (r: Vec<EnvSecret>)
    ensures
        r.deep_view() == v.deep_view(),
{
    let mut r: Vec<EnvSecret> = Vec::new();
    let mut i: usize = 0;
    while i < v.len()
        invariant
            i <= v.len(),
            r.len() == i,
            forall|j: int| 0 <= j < i ==> r@[j]@ == v@[j]@,
        decreases v.len() - i,
    {
        r.push(v[i].clone());
        i = i + 1;
    }
    r
}

impl MachineConfig {
    /// Whether every module and every secret is named once.
    pub fn is_well_formed(&self) -> (r: bool)
        ensures
            r == self@.well_formed(),
    {
        let mut j: usize = 0;
        while j < self.modules.len()
            invariant
                j <= self.modules.len(),
                forall|a: int, b: int|
                    0 <= a < b < j ==> self.modules@[a].name@ != self.modules@[b].name@,
            decreases self.modules.len() - j,
        {
            let mut i: usize = 0;
            while i < j
                invariant
                    i <= j < self.modules.len(),
                    forall|a: int|
                        0 <= a < i ==> self.modules@[a].name@ != self.modules@[j as int].name@,
                decreases j - i,
            {
                if self.modules[i].name == self.modules[j].name {
                    proof {
                        let views = self.modules.deep_view();
                        assert(views[i as int].name == views[j as int].name);
                    }
                    return false;
                }
                i = i + 1;
            }
            j = j + 1;
        }
        assert(distinct_modules(self.modules.deep_view())) by {
            let views = self.modules.deep_view();
            assert forall|a: int, b: int| 0 <= a < b < views.len() implies (#[trigger] views[
                a
            ]).name != (#[trigger] views[b]).name by {
                assert(views[a] == self.modules@[a]@ && views[b] == self.modules@[b]@);
            }
        }
        let mut j: usize = 0;
        while j < self.secrets.len()
            invariant
                j <= self.secrets.len(),
                distinct_modules(self.modules.deep_view()),
                forall|a: int, b: int|
                    0 <= a < b < j ==> self.secrets@[a].name@ != self.secrets@[b].name@,
            decreases self.secrets.len() - j,
        {
            let mut i: usize = 0;
            while i < j
                invariant
                    i <= j < self.secrets.len(),
                    forall|a: int|
                        0 <= a < i ==> self.secrets@[a].name@ != self.secrets@[j as int].name@,
                decreases j - i,
            {
                if self.secrets[i].name == self.secrets[j].name {
                    proof {
                        let views = self.secrets.deep_view();
                        assert(views[i as int].name == views[j as int].name);
                    }
                    return false;
                }
                i = i + 1;
            }
            j = j + 1;
        }
        assert(distinct_secrets(self.secrets.deep_view())) by {
            let views = self.secrets.deep_view();
            assert forall|a: int, b: int| 0 <= a < b < views.len() implies (#[trigger] views[
                a
            ]).name != (#[trigger] views[b]).name by {
                assert(views[a] == self.secrets@[a]@ && views[b] == self.secrets@[b]@);
            }
        }
        true
    }
}

impl Clone for MachineConfig {
    fn clone(&self) -> (r: Self)
        ensures
            r@ == self@,
    {
        MachineConfig {
            name: self.name.clone(),
            nixpkgs_from: clone_opt(&self.nixpkgs_from),
            modules: clone_modules(&self.modules),
            secrets: clone_secrets(&self.secrets),
        }
    }
}

/// A directory on the host that belongs to the store or to one machine.
#[derive(Debug, PartialEq, Eq)]
pub enum HostDir {
    /// The store's configuration directory.
    StoreConfig,
    /// The store's data directory.
    StoreData,
    /// The configuration directory of the named machine.
    MachineConfig(String),
    /// The data directory of the named machine.
    MachineData(String),
}

impl Clone for HostDir {
    fn clone(&self) -> (r: Self)
        ensures
            r@ == self@,
    {
        match self {
            HostDir::StoreConfig => HostDir::StoreConfig,
            HostDir::StoreData => HostDir::StoreData,
            HostDir::MachineConfig(name) => HostDir::MachineConfig(name.clone()),
            HostDir::MachineData(name) => HostDir::MachineData(name.clone()),
        }
    }
}

/// Mathematical value of a [`HostDir`].
#[verifier::ext_equal]
pub enum HostDirView {
    StoreConfig,
    StoreData,
    MachineConfig(Seq<char>),
    MachineData(Seq<char>),
}

impl View for HostDir {
    type V = HostDirView;

    open spec fn view(&self) -> HostDirView {
        match self {
            HostDir::StoreConfig => HostDirView::StoreConfig,
            HostDir::StoreData => HostDirView::StoreData,
            HostDir::MachineConfig(name) => HostDirView::MachineConfig(name@),
            HostDir::MachineData(name) => HostDirView::MachineData(name@),
        }
    }
}

impl DeepView for HostDir {
    type V = HostDirView;

    open spec fn deep_view(&self) -> HostDirView {
        self@
    }
}

/// Process-wide settings and installation constants, handed to every
/// operation as one snapshot so that nothing is read from ambient state.
#[derive(Debug, PartialEq, Eq)]
pub struct Settings {
    /// Whether debug output is enabled.
    pub debug: bool,
    /// Whether the display server bridge is enabled.
    pub vcxsrv: bool,
    /// The host's current `WSLENV`, empty if unset.
    pub wslenv: String,
    /// The backend's command line program.
    pub wsl_program: String,
    /// The host's configuration directory.
    pub host_dir_config: String,
    /// The host's data directory.
    pub host_dir_data: String,
    /// The configuration directory as the store sees it.
    pub store_dir_config: LinuxPath,
    /// The data directory as the store sees it.
    pub store_dir_data: LinuxPath,
    /// The instance name of the store container.
    pub store_name: String,
    /// What precedes a machine's name in its instance name.
    pub machine_prefix: String,
    /// The name of the unprivileged user inside instances.
    pub default_user: String,
    /// The locator of the flake that provides the driver module.
    pub flake_url: String,
    /// The input name of the driver module in generated build descriptions.
    pub driver_module: String,
    /// The system double that configurations are built for.
    pub nix_system: String,
    /// The one-shot environment file that a starting machine consumes.
    pub init_env: String,
    /// The file name of a machine's init log inside its data directory.
    pub init_log: String,
    /// The log line that marks a failed machine start.
    pub init_exit_err: String,
    /// The log line that marks a successful machine start.
    pub init_exit_success: String,
    /// The root file system archive of the store.
    pub store_rootfs: String,
    /// The root file system archive of a machine.
    pub machine_rootfs: String,
}

/// Mathematical value of [`Settings`].
#[verifier::ext_equal]
pub struct SettingsView {
    pub debug: bool,
    pub vcxsrv: bool,
    pub wslenv: Seq<char>,
    pub wsl_program: Seq<char>,
    pub host_dir_config: Seq<char>,
    pub host_dir_data: Seq<char>,
    pub store_dir_config: Seq<char>,
    pub store_dir_data: Seq<char>,
    pub store_name: Seq<char>,
    pub machine_prefix: Seq<char>,
    pub default_user: Seq<char>,
    pub flake_url: Seq<char>,
    pub driver_module: Seq<char>,
    pub nix_system: Seq<char>,
    pub init_env: Seq<char>,
    pub init_log: Seq<char>,
    pub init_exit_err: Seq<char>,
    pub init_exit_success: Seq<char>,
    pub store_rootfs: Seq<char>,
    pub machine_rootfs: Seq<char>,
}

impl View for Settings {
    type V = SettingsView;

    open spec fn view(&self) -> SettingsView {
        SettingsView {
            debug: self.debug,
            vcxsrv: self.vcxsrv,
            wslenv: self.wslenv@,
            wsl_program: self.wsl_program@,
            host_dir_config: self.host_dir_config@,
            host_dir_data: self.host_dir_data@,
            store_dir_config: self.store_dir_config@,
            store_dir_data: self.store_dir_data@,
            store_name: self.store_name@,
            machine_prefix: self.machine_prefix@,
            default_user: self.default_user@,
            flake_url: self.flake_url@,
            driver_module: self.driver_module@,
            nix_system: self.nix_system@,
            init_env: self.init_env@,
            init_log: self.init_log@,
            init_exit_err: self.init_exit_err@,
            init_exit_success: self.init_exit_success@,
            store_rootfs: self.store_rootfs@,
            machine_rootfs: self.machine_rootfs@,
        }
    }
}

impl Clone for Settings {
    fn clone(&self) -> (r: Self)
        ensures
            r@ == self@,
    {
        Settings {
            debug: self.debug,
            vcxsrv: self.vcxsrv,
            wslenv: self.wslenv.clone(),
            wsl_program: self.wsl_program.clone(),
            host_dir_config: self.host_dir_config.clone(),
            host_dir_data: self.host_dir_data.clone(),
            store_dir_config: self.store_dir_config.clone(),
            store_dir_data: self.store_dir_data.clone(),
            store_name: self.store_name.clone(),
            machine_prefix: self.machine_prefix.clone(),
            default_user: self.default_user.clone(),
            flake_url: self.flake_url.clone(),
            driver_module: self.driver_module.clone(),
            nix_system: self.nix_system.clone(),
            init_env: self.init_env.clone(),
            init_log: self.init_log.clone(),
            init_exit_err: self.init_exit_err.clone(),
            init_exit_success: self.init_exit_success.clone(),
            store_rootfs: self.store_rootfs.clone(),
            machine_rootfs: self.machine_rootfs.clone(),
        }
    }
}

/// The instance name of the machine called `name`.
pub open spec fn machine_instance(settings: SettingsView, name: Seq<char>) -> Seq<char> {
    settings.machine_prefix + name
}

/// The directory of machine `name` below `base`, inside the store.
pub open spec fn machine_dir(base: Seq<char>, name: Seq<char>) -> Seq<char> {
    base + "/"@ + ("machine/"@ + name)
}

/// The init log of machine `name`, as the store sees it.
pub open spec fn init_log_path(settings: SettingsView, name: Seq<char>) -> Seq<char> {
    machine_dir(settings.store_dir_data, name) + "/"@ + settings.init_log
}

impl Settings {
    /// The instance name of the machine called `name`.
    pub fn machine_name(&self, name: &str) -> (r: String)
        ensures
            r@ == machine_instance(self@, name@),
    {
        concat2(self.machine_prefix.as_str(), name)
    }

    /// The configuration directory of machine `name`, as the store sees it.
    pub fn machine_config_dir(&self, name: &str) -> (r: LinuxPath)
        ensures
            r@ == machine_dir(self@.store_dir_config, name@),
    {
        self.store_dir_config.join_machine(name)
    }

    /// The data directory of machine `name`, as the store sees it.
    pub fn machine_data_dir(&self, name: &str) -> (r: LinuxPath)
        ensures
            r@ == machine_dir(self@.store_dir_data, name@),
    {
        self.store_dir_data.join_machine(name)
    }

    /// The init log of machine `name`, as the store sees it.
    pub fn init_log(&self, name: &str) -> (r: LinuxPath)
        ensures
            r@ == init_log_path(self@, name@),
    {
        self.store_dir_data.join_machine(name).join_str(self.init_log.as_str())
    }
}

} // verus!
