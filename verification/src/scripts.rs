//! The store-side shell scripts of the lifecycle, each as a named text with
//! explicit inputs.

use crate::config::{Secret, SecretView, Settings, SettingsView};
use crate::flake::NIX_STORE_PACKAGE;
use crate::text::{join, joined};
use vstd::prelude::*;
use vstd::string::*;

verus! {

/// How a profile is brought to the new configuration.
#[derive(Debug, PartialEq, Eq, Clone, Copy, Structural)]
pub enum ProfileOp {
    /// The profile does not exist yet and is installed.
    Install,
    /// The profile exists and is upgraded in place.
    Upgrade,
}

/// The profile is installed where the built-system marker is absent and
/// upgraded where it is present.
pub open spec fn profile_op(marker_present: bool) -> ProfileOp {
    if marker_present {
        ProfileOp::Upgrade
    } else {
        ProfileOp::Install
    }
}

/// The line that hands one secret to a starting machine.
pub open spec fn export_line(s: SecretView) -> Seq<char> {
    "export CODCHI_"@ + s.name + "=\""@ + s.value + "\""@
}

/// The lines that hand the stored secrets to a starting machine.
pub open spec fn export_lines(secrets: Seq<SecretView>) -> Seq<Seq<char>> {
    Seq::new(secrets.len(), |i: int| export_line(secrets[i]))
}

/// How a flag is written into the environment file.
pub open spec fn flag_text(b: bool) -> Seq<char> {
    if b {
        "true"@
    } else {
        "false"@
    }
}

/// The script that waits until an earlier environment file is consumed and
/// then writes the one for machine `name`.
pub open spec fn init_env_script(
    name: Seq<char>,
    secrets: Seq<SecretView>,
    settings: SettingsView,
) -> Seq<char> {
    "\nwhile [ -f \""@ + settings.init_env
        + "\" ]; do\n    echo -e '\\e[1A\\e[KWaiting for machine init env...'\n    sleep .25\ndone\ncat <<EOF > \""@
        + settings.init_env + "\"\nCODCHI_DEBUG=\""@ + flag_text(settings.debug)
        + "\"\nCODCHI_MACHINE_NAME=\""@ + name + "\"\n"@ + joined(export_lines(secrets), "\n"@)
        + "\nEOF\n"@
}

/// The script that follows the init log `log` until a line marks the end of
/// the machine's start: it fails at the error mark and succeeds at the
/// success mark.
pub open spec fn tail_log_script(log: Seq<char>, settings: SettingsView) -> Seq<char> {
    "\ntouch \""@ + log + "\"\nawk '/^"@ + settings.init_exit_err + "$/{ exit 1};/^"@
        + settings.init_exit_success + "$/{exit 0};1' < <(tail -f \""@ + log + "\")\n"@
}

/// The command line that refreshes the dependency lock.
pub open spec fn update_flake_script() -> Seq<char> {
    "ndd $NIX_VERBOSITY flake update"@
}

/// The step of the build script that brings the profile to the new
/// configuration.
pub open spec fn profile_step(op: ProfileOp) -> Seq<char> {
    match op {
        ProfileOp::Install =>
            "ndd $NIX_VERBOSITY profile install --option warn-dirty false --profile system \\\n        '.#nixosConfigurations.default.config.system.build.toplevel'\n"@,
        ProfileOp::Upgrade =>
            "ndd $NIX_VERBOSITY profile upgrade --option warn-dirty false --profile system '.*'\n"@,
    }
}

/// The script that evaluates the configuration, takes over its package
/// manager settings, installs or upgrades the system profile, and records
/// the build description's files in version control.
pub open spec fn build_script(op: ProfileOp) -> Seq<char> {
    "\nNIX_CFG_FILE=\"$(ndd build $NIX_VERBOSITY --no-link --print-out-paths \\\n    '.#nixosConfigurations.default.config.environment.etc.\"nix/nix.conf\".source')\"\nexport NIX_CONFIG=\"$(cat $NIX_CFG_FILE)\"\n"@
        + profile_step(op) + "pwd\ngit add flake.*\n"@
}

/// The script that builds the store's own runtime package.
pub open spec fn runtime_script(settings: SettingsView) -> Seq<char> {
    "\nunset NIX_REMOTE\nnix build $NIX_VERBOSITY --no-link \\\n    "@ + settings.flake_url
        + "#packages."@ + settings.nix_system + "."@ + NIX_STORE_PACKAGE@
        + ".config.build.runtime\n"@
}

impl ProfileOp {
    /// Decides between installing and upgrading the system profile.
    pub fn for_marker(marker_present: bool) -> (r: ProfileOp)
        ensures
            r == profile_op(marker_present),
    {
        if marker_present {
            ProfileOp::Upgrade
        } else {
            ProfileOp::Install
        }
    }
}

/// The line that hands one secret to a starting machine.
fn render_export_line(s: &Secret) -> (r: String)
    ensures
        r@ == export_line(s@),
{
    let mut r = String::from_str("export CODCHI_");
    r.append(s.name.as_str());
    r.append("=\"");
    r.append(s.value.as_str());
    r.append("\"");
    r
}

/// The script that writes the environment file of machine `name`.
pub fn render_init_env(name: &str, secrets: &Vec<Secret>, settings: &Settings) -> (r: String)
    ensures
        r@ == init_env_script(name@, secrets.deep_view(), settings@),
{
    let mut lines: Vec<String> = Vec::new();
    let mut i: usize = 0;
    while i < secrets.len()
        invariant
            i <= secrets.len(),
            lines.len() == i,
            forall|j: int| 0 <= j < i ==> lines@[j]@ == export_line(secrets@[j]@),
        decreases secrets.len() - i,
    {
        lines.push(render_export_line(&secrets[i]));
        i = i + 1;
    }
    assert(lines.deep_view() =~= export_lines(secrets.deep_view()));
    let exports = join(&lines, "\n");
    let mut r = String::from_str("\nwhile [ -f \"");
    r.append(settings.init_env.as_str());
    r.append(
        "\" ]; do\n    echo -e '\\e[1A\\e[KWaiting for machine init env...'\n    sleep .25\ndone\ncat <<EOF > \"",
    );
    r.append(settings.init_env.as_str());
    r.append("\"\nCODCHI_DEBUG=\"");
    r.append(if settings.debug { "true" } else { "false" });
    r.append("\"\nCODCHI_MACHINE_NAME=\"");
    r.append(name);
    r.append("\"\n");
    r.append(exports.as_str());
    r.append("\nEOF\n");
    r
}

/// The script that follows the init log `log`.
pub fn render_tail_log(log: &str, settings: &Settings) -> (r: String)
    ensures
        r@ == tail_log_script(log@, settings@),
{
    let mut r = String::from_str("\ntouch \"");
    r.append(log);
    r.append("\"\nawk '/^");
    r.append(settings.init_exit_err.as_str());
    r.append("$/{ exit 1};/^");
    r.append(settings.init_exit_success.as_str());
    r.append("$/{exit 0};1' < <(tail -f \"");
    r.append(log);
    r.append("\")\n");
    r
}

/// The script that builds and activates the profile.
pub fn render_build(op: ProfileOp) -> (r: String)
    ensures
        r@ == build_script(op),
{
    let mut r = String::from_str(
        "\nNIX_CFG_FILE=\"$(ndd build $NIX_VERBOSITY --no-link --print-out-paths \\\n    '.#nixosConfigurations.default.config.environment.etc.\"nix/nix.conf\".source')\"\nexport NIX_CONFIG=\"$(cat $NIX_CFG_FILE)\"\n",
    );
    match op {
        ProfileOp::Install => r.append(
            "ndd $NIX_VERBOSITY profile install --option warn-dirty false --profile system \\\n        '.#nixosConfigurations.default.config.system.build.toplevel'\n",
        ),
        ProfileOp::Upgrade => r.append(
            "ndd $NIX_VERBOSITY profile upgrade --option warn-dirty false --profile system '.*'\n",
        ),
    }
    r.append("pwd\ngit add flake.*\n");
    r
}

/// The script that builds the store's own runtime package.
pub fn render_runtime(settings: &Settings) -> (r: String)
    ensures
        r@ == runtime_script(settings@),
{
    let mut r = String::from_str(
        "\nunset NIX_REMOTE\nnix build $NIX_VERBOSITY --no-link \\\n    ",
    );
    r.append(settings.flake_url.as_str());
    r.append("#packages.");
    r.append(settings.nix_system.as_str());
    r.append(".");
    r.append(NIX_STORE_PACKAGE);
    r.append(".config.build.runtime\n");
    r
}

} // verus!
