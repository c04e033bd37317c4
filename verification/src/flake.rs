//! The build description of a machine: a generated flake that declares the
//! driver module and one input per configured module, and wires them into
//! one system configuration.

use crate::command::{LinuxCommandBuilder, LinuxCommandDriver, LinuxCommandView, ProgramView};
use crate::config::{
    machine_dir, HostDir, HostDirView, MachineConfig, MachineConfigView, Module, ModuleView,
    Settings, SettingsView,
};
use crate::text::{join, joined};
use vstd::prelude::*;
use vstd::string::*;

verus! {

/// The name under which this backend is known to the driver module.
pub const NIXOS_DRIVER_NAME: &'static str = "wsl";

/// The package of the driver flake that holds the store's runtime.
pub const NIX_STORE_PACKAGE: &'static str = "store-wsl";

/// The file name of the build description.
pub const FLAKE_FILE: &'static str = "flake.nix";

/// The line that declares the input of one module.
pub open spec fn input_line(m: ModuleView) -> Seq<char> {
    "    \""@ + m.name + "\".url = \""@ + m.url + "\";"@
}

/// The line that adds one module to the system configuration.
pub open spec fn module_line(m: ModuleView) -> Seq<char> {
    "        inputs.\""@ + m.name + "\"."@ + m.flake_attr
}

/// The input lines of all modules, in declaration order.
pub open spec fn input_lines(modules: Seq<ModuleView>) -> Seq<Seq<char>> {
    Seq::new(modules.len(), |i: int| input_line(modules[i]))
}

/// The module lines of all modules, in declaration order.
pub open spec fn module_lines(modules: Seq<ModuleView>) -> Seq<Seq<char>> {
    Seq::new(modules.len(), |i: int| module_line(modules[i]))
}

/// The package set that the configuration follows: that of the named module,
/// or that of the driver module.
pub open spec fn nixpkgs_source(from: Option<Seq<char>>) -> Seq<char> {
    match from {
        Some(name) => "inputs.\""@ + name + "\".inputs.nixpkgs"@,
        None => "inputs.codchi_driver.inputs.nixpkgs"@,
    }
}

/// The text of the build description of a machine.
pub open spec fn flake_text(config: MachineConfigView, settings: SettingsView) -> Seq<char> {
    "{\n  inputs = {\n    "@ + settings.driver_module + ".url = \""@ + settings.flake_url
        + "\";\n"@ + joined(input_lines(config.modules), "\n"@)
        + "\n  };\n  outputs = inputs: {\n    nixosConfigurations.default = inputs."@
        + settings.driver_module + ".lib.codeMachine {\n      driver = \""@ + NIXOS_DRIVER_NAME@
        + "\";\n      system = \""@ + settings.nix_system + "\";\n      nixpkgs = "@
        + nixpkgs_source(config.nixpkgs_from) + ";\n      modules = [\n"@ + joined(
        module_lines(config.modules),
        "\n"@,
    ) + "\n      ];\n    };\n  };\n}"@
}

/// The script that puts a fresh build description under version control.
pub open spec fn init_repo_script() -> Seq<char> {
    "\nif [ ! -d .git ]; then\n  git init -q\n  git add flake.nix\nfi\n"@
}

/// Everything that writing a build description consists of.
#[derive(Debug, PartialEq, Eq)]
pub struct FlakeWrite {
    /// The host directory that holds the file; it is created if missing.
    pub dir: HostDir,
    /// The file's name inside that directory.
    pub file: String,
    /// The file's whole content.
    pub text: String,
    /// The store-side command that runs once the file is written.
    pub init: LinuxCommandBuilder,
}

/// Mathematical value of a [`FlakeWrite`].
#[verifier::ext_equal]
pub struct FlakeWriteView {
    pub dir: HostDirView,
    pub file: Seq<char>,
    pub text: Seq<char>,
    pub init: LinuxCommandView,
}

impl View for FlakeWrite {
    type V = FlakeWriteView;

    open spec fn view(&self) -> FlakeWriteView {
        FlakeWriteView { dir: self.dir@, file: self.file@, text: self.text@, init: self.init@ }
    }
}

/// What writing the build description of `config` consists of.
pub open spec fn flake_write(config: MachineConfigView, settings: SettingsView) -> FlakeWriteView {
    FlakeWriteView {
        dir: HostDirView::MachineConfig(config.name),
        file: FLAKE_FILE@,
        text: flake_text(config, settings),
        init: LinuxCommandView {
            instance: settings.store_name,
            program: ProgramView::Script(init_repo_script()),
            user: None,
            cwd: Some(machine_dir(settings.store_dir_config, config.name)),
            env: Seq::empty(),
        },
    }
}

/// The input line of one module.
fn render_input_line(m: &Module) -> (r: String)
    ensures
        r@ == input_line(m@),
{
    let mut r = String::from_str("    \"");
    r.append(m.name.as_str());
    r.append("\".url = \"");
    r.append(m.url.as_str());
    r.append("\";");
    r
}

/// The module line of one module.
fn render_module_line(m: &Module) -> (r: String)
    ensures
        r@ == module_line(m@),
{
    let mut r = String::from_str("        inputs.\"");
    r.append(m.name.as_str());
    r.append("\".");
    r.append(m.flake_attr.as_str());
    r
}

/// The text of the build description of `config`.
pub fn render_flake(config: &MachineConfig, settings: &Settings) -> (r: String)
    ensures
        r@ == flake_text(config@, settings@),
{
    let mut inputs: Vec<String> = Vec::new();
    let mut modules: Vec<String> = Vec::new();
    let mut i: usize = 0;
    while i < config.modules.len()
        invariant
            i <= config.modules.len(),
            inputs.len() == i,
            modules.len() == i,
            forall|j: int| 0 <= j < i ==> inputs@[j]@ == input_line(config.modules@[j]@),
            forall|j: int| 0 <= j < i ==> modules@[j]@ == module_line(config.modules@[j]@),
        decreases config.modules.len() - i,
    {
        inputs.push(render_input_line(&config.modules[i]));
        modules.push(render_module_line(&config.modules[i]));
        i = i + 1;
    }
    assert(inputs.deep_view() =~= input_lines(config@.modules));
    assert(modules.deep_view() =~= module_lines(config@.modules));
    let module_inputs = join(&inputs, "\n");
    let module_list = join(&modules, "\n");
    let mut nixpkgs = String::from_str("inputs.codchi_driver.inputs.nixpkgs");
    match &config.nixpkgs_from {
        Some(name) => {
            nixpkgs = String::from_str("inputs.\"");
            nixpkgs.append(name.as_str());
            nixpkgs.append("\".inputs.nixpkgs");
        },
        None => {},
    }
    let mut r = String::from_str("{\n  inputs = {\n    ");
    r.append(settings.driver_module.as_str());
    r.append(".url = \"");
    r.append(settings.flake_url.as_str());
    r.append("\";\n");
    r.append(module_inputs.as_str());
    r.append("\n  };\n  outputs = inputs: {\n    nixosConfigurations.default = inputs.");
    r.append(settings.driver_module.as_str());
    r.append(".lib.codeMachine {\n      driver = \"");
    r.append(NIXOS_DRIVER_NAME);
    r.append("\";\n      system = \"");
    r.append(settings.nix_system.as_str());
    r.append("\";\n      nixpkgs = ");
    r.append(nixpkgs.as_str());
    r.append(";\n      modules = [\n");
    r.append(module_list.as_str());
    r.append("\n      ];\n    };\n  };\n}");
    r
}

/// What writing the build description of `config` consists of: the
/// directory to create, the file to write, and the store-side command that
/// puts a fresh description under version control.
pub fn plan_flake_write(config: &MachineConfig, settings: &Settings) -> (r: FlakeWrite)
    ensures
        r@ == flake_write(config@, settings@),
{
    let store = LinuxCommandDriver { instance_name: settings.store_name.clone() };
    let init = store.script(
        String::from_str("\nif [ ! -d .git ]; then\n  git init -q\n  git add flake.nix\nfi\n"),
    ).with_cwd(settings.machine_config_dir(config.name.as_str()));
    FlakeWrite {
        dir: HostDir::MachineConfig(config.name.clone()),
        file: String::from_str(FLAKE_FILE),
        text: render_flake(config, settings),
        init,
    }
}

} // verus!
