//! Commands against one Linux execution context (the store or a machine):
//! how a command is described, how it is turned into a call of the backend's
//! command line program, and how the result of a run is judged.

use crate::config::{clone_opt, clone_strings, LinuxPath, LinuxUser, Settings, SettingsView};
use crate::status::ConfigStatus;
use crate::text::{concat3, decode};
use vstd::prelude::*;
use vstd::string::*;
use vstd::utf8::*;

verus! {

/// A call of a program on the host: what is handed to the operating system.
#[derive(Debug, PartialEq, Eq)]
pub struct HostCommand {
    pub program: String,
    pub args: Vec<String>,
    /// Environment variables set for the call, in the order they are set.
    pub env: Vec<(String, String)>,
    /// Text that is fed to the program's standard input, if any.
    pub stdin: Option<String>,
}

/// Mathematical value of a [`HostCommand`].
#[verifier::ext_equal]
pub struct HostCommandView {
    pub program: Seq<char>,
    pub args: Seq<Seq<char>>,
    pub env: Seq<(Seq<char>, Seq<char>)>,
    pub stdin: Option<Seq<char>>,
}

impl View for HostCommand {
    type V = HostCommandView;

    open spec fn view(&self) -> HostCommandView {
        HostCommandView {
            program: self.program@,
            args: self.args.deep_view(),
            env: self.env.deep_view(),
            stdin: self.stdin.deep_view(),
        }
    }
}

impl DeepView for HostCommand {
    type V = HostCommandView;

    open spec fn deep_view(&self) -> HostCommandView {
        self@
    }
}

/// What runs inside the instance.
#[derive(Debug, PartialEq, Eq)]
pub enum Program {
    /// A program with its arguments.
    Run { program: String, args: Vec<String> },
    /// A shell script of several statements, run as one body.
    Script(String),
    /// The instance's own shell, with nothing to run.
    Shell,
}

/// Mathematical value of a [`Program`].
#[verifier::ext_equal]
pub enum ProgramView {
    Run { program: Seq<char>, args: Seq<Seq<char>> },
    Script(Seq<char>),
    Shell,
}

impl View for Program {
    type V = ProgramView;

    open spec fn view(&self) -> ProgramView {
        match self {
            Program::Run { program, args } => ProgramView::Run {
                program: program@,
                args: args.deep_view(),
            },
            Program::Script(s) => ProgramView::Script(s@),
            Program::Shell => ProgramView::Shell,
        }
    }
}

impl Clone for Program {
    fn clone(&self) -> (r: Self)
        ensures
            r@ == self@,
    {
        match self {
            Program::Run { program, args } => Program::Run {
                program: program.clone(),
                args: clone_strings(args),
            },
            Program::Script(s) => Program::Script(s.clone()),
            Program::Shell => Program::Shell,
        }
    }
}

/// The backend-specific way to reach one instance.
#[derive(Debug, PartialEq, Eq)]
pub struct LinuxCommandDriver {
    pub instance_name: String,
}

impl View for LinuxCommandDriver {
    type V = Seq<char>;

    open spec fn view(&self) -> Seq<char> {
        self.instance_name@
    }
}

impl Clone for LinuxCommandDriver {
    fn clone(&self) -> (r: Self)
        ensures
            r@ == self@,
    {
        LinuxCommandDriver { instance_name: self.instance_name.clone() }
    }
}

/// One command invocation against an instance: never kept, made per call.
#[derive(Debug, PartialEq, Eq)]
pub struct LinuxCommandBuilder {
    pub driver: LinuxCommandDriver,
    pub program: Program,
    /// The user to run as; `None` leaves the choice to the backend.
    pub user: Option<LinuxUser>,
    /// The working directory; `None` means the root directory.
    pub cwd: Option<LinuxPath>,
    /// Variables set on the host side of the call.
    pub env: Vec<(String, String)>,
}

/// Mathematical value of a [`LinuxCommandBuilder`].
#[verifier::ext_equal]
pub struct LinuxCommandView {
    pub instance: Seq<char>,
    pub program: ProgramView,
    pub user: Option<LinuxUser>,
    pub cwd: Option<Seq<char>>,
    pub env: Seq<(Seq<char>, Seq<char>)>,
}

impl View for LinuxCommandBuilder {
    type V = LinuxCommandView;

    open spec fn view(&self) -> LinuxCommandView {
        LinuxCommandView {
            instance: self.driver@,
            program: self.program@,
            user: self.user,
            cwd: self.cwd.deep_view(),
            env: self.env.deep_view(),
        }
    }
}

impl DeepView for LinuxCommandBuilder {
    type V = LinuxCommandView;

    open spec fn deep_view(&self) -> LinuxCommandView {
        self@
    }
}

/// A copy of a list of variables.
pub fn clone_env(v: &Vec<(String, String)>) -> (r: Vec<(String, String)>)
    ensures
        r.deep_view() == v.deep_view(),
{
    let mut r: Vec<(String, String)> = Vec::new();
    let mut i: usize = 0;
    while i < v.len()
        invariant
            i <= v.len(),
            r.len() == i,
            forall|j: int| 0 <= j < i ==> r@[j].0@ == v@[j].0@ && r@[j].1@ == v@[j].1@,
        decreases v.len() - i,
    {
        r.push((v[i].0.clone(), v[i].1.clone()));
        i = i + 1;
    }
    r
}

impl Clone for LinuxCommandBuilder {
    fn clone(&self) -> (r: Self)
        ensures
            r@ == self@,
    {
        let cwd = match &self.cwd {
            Some(p) => Some(p.clone()),
            None => None,
        };
        LinuxCommandBuilder {
            driver: self.driver.clone(),
            program: self.program.clone(),
            user: self.user,
            cwd,
            env: clone_env(&self.env),
        }
    }
}

impl Clone for HostCommand {
    fn clone(&self) -> (r: Self)
        ensures
            r@ == self@,
    {
        HostCommand {
            program: self.program.clone(),
            args: clone_strings(&self.args),
            env: clone_env(&self.env),
            stdin: clone_opt(&self.stdin),
        }
    }
}

/// What came back from a finished process.
#[derive(Debug, PartialEq, Eq)]
pub struct ProcessOutput {
    /// Whether the process ended with exit code zero.
    pub success: bool,
    /// What the process wrote to its standard output.
    pub stdout: Vec<u8>,
}

/// Mathematical value of a [`ProcessOutput`].
#[verifier::ext_equal]
pub struct ProcessOutputView {
    pub success: bool,
    pub stdout: Seq<u8>,
}

impl View for ProcessOutput {
    type V = ProcessOutputView;

    open spec fn view(&self) -> ProcessOutputView {
        ProcessOutputView { success: self.success, stdout: self.stdout@ }
    }
}

impl DeepView for ProcessOutput {
    type V = ProcessOutputView;

    open spec fn deep_view(&self) -> ProcessOutputView {
        self@
    }
}

/// Why a run of a command counts as failed.
#[derive(Debug, PartialEq, Eq, Clone, Copy, Structural)]
pub enum Fault {
    /// The process ended with a non-zero exit code.
    Exit,
    /// The process succeeded, but its output is not valid UTF-8.
    Encoding,
    /// The process succeeded, but its output is not what was asked for.
    Parse,
    /// The process could not be started at all.
    Start,
}

/// A failed command: which command it was, with its arguments, and why it
/// counts as failed.
#[derive(Debug, PartialEq, Eq)]
pub struct CommandError {
    pub command: LinuxCommandBuilder,
    pub fault: Fault,
}

/// Mathematical value of a [`CommandError`].
#[verifier::ext_equal]
pub struct CommandErrorView {
    pub command: LinuxCommandView,
    pub fault: Fault,
}

impl View for CommandError {
    type V = CommandErrorView;

    open spec fn view(&self) -> CommandErrorView {
        CommandErrorView { command: self.command@, fault: self.fault }
    }
}

impl Clone for CommandError {
    fn clone(&self) -> (r: Self)
        ensures
            r@ == self@,
    {
        CommandError { command: self.command.clone(), fault: self.fault }
    }
}

/// `arg` between two single quotes. What stands between them is not escaped:
/// an argument that itself holds a single quote ends the quoting early.
pub open spec fn quoted(arg: Seq<char>) -> Seq<char> {
    "'"@ + arg + "'"@
}

/// Every element of `args`, quoted.
pub open spec fn all_quoted(args: Seq<Seq<char>>) -> Seq<Seq<char>> {
    Seq::new(args.len(), |i: int| quoted(args[i]))
}

/// The names of the variables that cross from the host into the guest. A
/// variable that is not named here is not seen by the guest process, even if
/// it is set for the call on the host.
pub open spec fn shared_names() -> Seq<char> {
    "CODCHI_DEBUG:CODCHI_MACHINE_NAME:CODCHI_IS_STORE:WSL_CODCHI_DIR_CONFIG/up:WSL_CODCHI_DIR_DATA/up"@
}

/// The value of `WSLENV` for a call: what the host had, then the shared
/// names, then the display bridge's flag if the bridge is enabled.
pub open spec fn wslenv_value(settings: SettingsView) -> Seq<char> {
    let inherited = if settings.wslenv.len() == 0 {
        settings.wslenv
    } else {
        settings.wslenv + ":"@
    };
    let shared = inherited + shared_names();
    if settings.vcxsrv {
        shared + ":CODCHI_WSL_USE_VCXSRV"@
    } else {
        shared
    }
}

/// The value of the flag that tells the shared store from a machine: set
/// for the store's own instance, empty for every other instance.
pub open spec fn store_flag(instance: Seq<char>, settings: SettingsView) -> Seq<char> {
    if instance == settings.store_name {
        "1"@
    } else {
        ""@
    }
}

/// The variables set for a call into `instance`.
pub open spec fn driver_env(instance: Seq<char>, settings: SettingsView) -> Seq<
    (Seq<char>, Seq<char>),
> {
    let fixed = seq![
        ("CODCHI_DEBUG"@, if settings.debug { "1"@ } else { ""@ }),
        ("CODCHI_MACHINE_NAME"@, instance),
        ("CODCHI_IS_STORE"@, store_flag(instance, settings)),
        ("WSL_CODCHI_DIR_CONFIG"@, settings.host_dir_config),
        ("WSL_CODCHI_DIR_DATA"@, settings.host_dir_data),
    ];
    let bridge = if settings.vcxsrv {
        fixed.push(("CODCHI_WSL_USE_VCXSRV"@, "1"@))
    } else {
        fixed
    };
    bridge.push(("WSLENV"@, wslenv_value(settings)))
}

/// The arguments that select the user.
pub open spec fn user_args(user: Option<LinuxUser>, settings: SettingsView) -> Seq<Seq<char>> {
    match user {
        Some(LinuxUser::Root) => seq!["--user"@, "root"@],
        Some(LinuxUser::Default) => seq!["--user"@, settings.default_user],
        None => Seq::empty(),
    }
}

/// The arguments that precede the command itself.
pub open spec fn driver_args(
    instance: Seq<char>,
    user: Option<LinuxUser>,
    cwd: Option<Seq<char>>,
    settings: SettingsView,
) -> Seq<Seq<char>> {
    let dir = match cwd {
        Some(p) => p,
        None => "/"@,
    };
    seq!["-d"@, instance, "--cd"@, dir] + user_args(user, settings) + seq!["--"@]
}

/// The call of the backend that reaches `instance`, still without a command.
pub open spec fn driver_command(
    instance: Seq<char>,
    user: Option<LinuxUser>,
    cwd: Option<Seq<char>>,
    settings: SettingsView,
) -> HostCommandView {
    HostCommandView {
        program: settings.wsl_program,
        args: driver_args(instance, user, cwd, settings),
        env: driver_env(instance, settings),
        stdin: None,
    }
}

/// The complete call of the backend for one command. A program is followed
/// by its quoted arguments; a script is fed to `bash` on standard input.
pub open spec fn rendered(cmd: LinuxCommandView, settings: SettingsView) -> HostCommandView {
    let base = driver_command(cmd.instance, cmd.user, cmd.cwd, settings);
    match cmd.program {
        ProgramView::Run { program, args } => HostCommandView {
            args: base.args + seq![program] + all_quoted(args),
            ..base
        },
        ProgramView::Script(script) => HostCommandView {
            args: base.args + seq!["bash"@],
            stdin: Some(script),
            ..base
        },
        ProgramView::Shell => base,
    }
}

/// A host-side call of the backend itself, outside any instance.
pub open spec fn backend_call(settings: SettingsView, args: Seq<Seq<char>>) -> HostCommandView {
    HostCommandView { program: settings.wsl_program, args, env: Seq::empty(), stdin: None }
}

/// The judgement of a run whose output is not looked at.
pub open spec fn waited(cmd: LinuxCommandView, out: ProcessOutputView) -> Result<
    (),
    CommandErrorView,
> {
    if out.success {
        Ok(())
    } else {
        Err(CommandErrorView { command: cmd, fault: Fault::Exit })
    }
}

/// The judgement of a run whose output is read as text.
pub open spec fn captured(cmd: LinuxCommandView, out: ProcessOutputView) -> Result<
    Seq<char>,
    CommandErrorView,
> {
    if !out.success {
        Err(CommandErrorView { command: cmd, fault: Fault::Exit })
    } else if !valid_utf8(out.stdout) {
        Err(CommandErrorView { command: cmd, fault: Fault::Encoding })
    } else {
        Ok(decode_utf8(out.stdout))
    }
}

/// The judgement of a run whose output is read as a build-state: the
/// output has to be the exact name of one.
pub open spec fn parsed(cmd: LinuxCommandView, out: ProcessOutputView) -> Result<
    ConfigStatus,
    CommandErrorView,
> {
    match captured(cmd, out) {
        Err(e) => Err(e),
        Ok(text) => match ConfigStatus::named_by(text) {
            Some(status) => Ok(status),
            None => Err(CommandErrorView { command: cmd, fault: Fault::Parse }),
        },
    }
}

/// The view of a judgement that gives a build-state.
pub open spec fn parsed_view(r: Result<ConfigStatus, CommandError>) -> Result<
    ConfigStatus,
    CommandErrorView,
> {
    match r {
        Ok(status) => Ok(status),
        Err(e) => Err(e@),
    }
}

/// The text of a successful capture, and nothing for a failed one.
pub open spec fn captured_text(r: Result<String, CommandError>) -> Result<
    Seq<char>,
    CommandErrorView,
> {
    match r {
        Ok(s) => Ok(s@),
        Err(e) => Err(e@),
    }
}

/// The view of a judgement without output.
pub open spec fn waited_view(r: Result<(), CommandError>) -> Result<(), CommandErrorView> {
    match r {
        Ok(()) => Ok(()),
        Err(e) => Err(e@),
    }
}

/// The store flag tells the two contexts apart: a call carries it set
/// exactly if it goes into the store's own instance.
pub proof fn lemma_store_flag(instance: Seq<char>, settings: SettingsView)
    ensures
        driver_env(instance, settings)[2] == ("CODCHI_IS_STORE"@, store_flag(instance, settings)),
        store_flag(instance, settings) == "1"@ <==> instance == settings.store_name,
{
    reveal_strlit("1");
    reveal_strlit("");
    assert("1"@.len() != ""@.len());
}

impl LinuxCommandDriver {
    /// The call of the backend that reaches this instance as `user` in
    /// directory `cwd`. The variables in `_env` stay on the host: only what
    /// `WSLENV` names reaches the guest.
    pub fn build(
        &self,
        user: &Option<LinuxUser>,
        cwd: &Option<LinuxPath>,
        _env: &Vec<(String, String)>,
        settings: &Settings,
    ) -> (r: HostCommand)
        ensures
            r@ == driver_command(self@, *user, cwd.deep_view(), settings@),
    {
        let mut args: Vec<String> = Vec::new();
        args.push(String::from_str("-d"));
        args.push(self.instance_name.clone());
        args.push(String::from_str("--cd"));
        match cwd {
            Some(p) => args.push(p.0.clone()),
            None => args.push(String::from_str("/")),
        }
        let mut env: Vec<(String, String)> = Vec::new();
        env.push(
            (String::from_str("CODCHI_DEBUG"), String::from_str(if settings.debug { "1" } else { "" })),
        );
        env.push((String::from_str("CODCHI_MACHINE_NAME"), self.instance_name.clone()));
        let is_store = self.instance_name == settings.store_name;
        env.push(
            (String::from_str("CODCHI_IS_STORE"), String::from_str(if is_store { "1" } else { "" })),
        );
        env.push((String::from_str("WSL_CODCHI_DIR_CONFIG"), settings.host_dir_config.clone()));
        env.push((String::from_str("WSL_CODCHI_DIR_DATA"), settings.host_dir_data.clone()));
        let mut wslenv = settings.wslenv.clone();
        if !wslenv.as_str().is_empty() {
            wslenv.append(":");
        }
        wslenv.append(
            "CODCHI_DEBUG:CODCHI_MACHINE_NAME:CODCHI_IS_STORE:WSL_CODCHI_DIR_CONFIG/up:WSL_CODCHI_DIR_DATA/up",
        );
        if settings.vcxsrv {
            env.push((String::from_str("CODCHI_WSL_USE_VCXSRV"), String::from_str("1")));
            wslenv.append(":CODCHI_WSL_USE_VCXSRV");
        }
        env.push((String::from_str("WSLENV"), wslenv));
        match user {
            Some(LinuxUser::Root) => {
                args.push(String::from_str("--user"));
                args.push(String::from_str("root"));
            },
            Some(LinuxUser::Default) => {
                args.push(String::from_str("--user"));
                args.push(settings.default_user.clone());
            },
            None => {},
        }
        args.push(String::from_str("--"));
        HostCommand { program: settings.wsl_program.clone(), args, env, stdin: None }
    }

    /// The driver itself, for a command that outlives the borrow.
    pub fn get_driver(&self) -> (r: LinuxCommandDriver)
        ensures
            r@ == self@,
    {
        self.clone()
    }

    /// Wraps an argument in single quotes for the guest's shell. The content
    /// is not escaped.
    pub fn quote_shell_arg(&self, arg: &str) -> (r: String)
        ensures
            r@ == quoted(arg@),
    {
        concat3("'", arg, "'")
    }

    /// A command that runs `program` with `args` in this instance, as the
    /// backend's default user, in the root directory.
    pub fn run(&self, program: &str, args: &[&str]) -> (r: LinuxCommandBuilder)
        ensures
            r@ == (LinuxCommandView {
                instance: self@,
                program: ProgramView::Run { program: program@, args: args.deep_view() },
                user: None,
                cwd: None,
                env: Seq::empty(),
            }),
    {
        let mut owned: Vec<String> = Vec::new();
        let mut i: usize = 0;
        while i < args.len()
            invariant
                i <= args.len(),
                owned.len() == i,
                forall|j: int| 0 <= j < i ==> owned@[j]@ == args@[j]@,
            decreases args.len() - i,
        {
            owned.push(String::from_str(args[i]));
            i = i + 1;
        }
        let env: Vec<(String, String)> = Vec::new();
        LinuxCommandBuilder {
            driver: self.get_driver(),
            program: Program::Run { program: String::from_str(program), args: owned },
            user: None,
            cwd: None,
            env,
        }
    }

    /// As [`Self::run`], with the arguments in a vector.
    pub fn run_words(&self, program: &str, args: Vec<&str>) -> (r: LinuxCommandBuilder)
        ensures
            r@ == (LinuxCommandView {
                instance: self@,
                program: ProgramView::Run { program: program@, args: args.deep_view() },
                user: None,
                cwd: None,
                env: Seq::empty(),
            }),
    {
        let slice = args.as_slice();
        self.run(program, slice)
    }

    /// A command that runs the multi-line shell script `script` in this
    /// instance.
    pub fn script(&self, script: String) -> (r: LinuxCommandBuilder)
        ensures
            r@ == (LinuxCommandView {
                instance: self@,
                program: ProgramView::Script(script@),
                user: None,
                cwd: None,
                env: Seq::empty(),
            }),
    {
        let env: Vec<(String, String)> = Vec::new();
        LinuxCommandBuilder {
            driver: self.get_driver(),
            program: Program::Script(script),
            user: None,
            cwd: None,
            env,
        }
    }

    /// A command that opens this instance's own shell.
    pub fn shell(&self) -> (r: LinuxCommandBuilder)
        ensures
            r@ == (LinuxCommandView {
                instance: self@,
                program: ProgramView::Shell,
                user: None,
                cwd: None,
                env: Seq::empty(),
            }),
    {
        let env: Vec<(String, String)> = Vec::new();
        LinuxCommandBuilder {
            driver: self.get_driver(),
            program: Program::Shell,
            user: None,
            cwd: None,
            env,
        }
    }
}

impl LinuxCommandBuilder {
    /// The same command, run as `user`.
    pub fn with_user(self, user: LinuxUser) -> (r: LinuxCommandBuilder)
        ensures
            r@ == (LinuxCommandView { user: Some(user), ..self@ }),
    {
        LinuxCommandBuilder { user: Some(user), ..self }
    }

    /// The same command, run in directory `cwd`.
    pub fn with_cwd(self, cwd: LinuxPath) -> (r: LinuxCommandBuilder)
        ensures
            r@ == (LinuxCommandView { cwd: Some(cwd@), ..self@ }),
    {
        LinuxCommandBuilder { cwd: Some(cwd), ..self }
    }

    /// The call of the backend that runs this command.
    pub fn command(&self, settings: &Settings) -> (r: HostCommand)
        ensures
            r@ == rendered(self@, settings@),
    {
        let base = self.driver.build(&self.user, &self.cwd, &self.env, settings);
        let ghost base_args = base@.args;
        let HostCommand { program: host_program, args: host_args, env, stdin } = base;
        let mut out = host_args;
        match &self.program {
            Program::Run { program, args } => {
                out.push(program.clone());
                let mut i: usize = 0;
                while i < args.len()
                    invariant
                        i <= args.len(),
                        out.len() == base_args.len() + 1 + i,
                        forall|j: int| 0 <= j < base_args.len() ==> out@[j]@ == base_args[j],
                        out@[base_args.len() as int]@ == program@,
                        forall|j: int|
                            0 <= j < i ==> out@[base_args.len() + 1 + j]@ == quoted(args@[j]@),
                    decreases args.len() - i,
                {
                    out.push(self.driver.quote_shell_arg(args[i].as_str()));
                    i = i + 1;
                }
                let r = HostCommand { program: host_program, args: out, env, stdin };
                r
            },
            Program::Script(script) => {
                out.push(String::from_str("bash"));
                let r = HostCommand {
                    program: host_program,
                    args: out,
                    env,
                    stdin: Some(script.clone()),
                };
                r
            },
            Program::Shell => {
                let r = HostCommand { program: host_program, args: out, env, stdin };
                r
            },
        }
    }

    /// Judges a run whose output is discarded: it fails on a non-zero exit
    /// code and succeeds otherwise.
    pub fn wait_ok(&self, out: &ProcessOutput) -> (r: Result<(), CommandError>)
        ensures
            waited_view(r) == waited(self@, out@),
    {
        if out.success {
            Ok(())
        } else {
            Err(CommandError { command: self.clone(), fault: Fault::Exit })
        }
    }

    /// Judges a run whose output is wanted as text: it fails on a non-zero
    /// exit code and on output that is not valid UTF-8, and otherwise gives
    /// the decoded output.
    pub fn output_utf8_ok(&self, out: &ProcessOutput) -> (r: Result<String, CommandError>)
        ensures
            captured_text(r) == captured(self@, out@),
    {
        if !out.success {
            return Err(CommandError { command: self.clone(), fault: Fault::Exit });
        }
        match decode(&out.stdout) {
            Some(text) => Ok(text),
            None => Err(CommandError { command: self.clone(), fault: Fault::Encoding }),
        }
    }

    /// Judges a run whose output is wanted as a build-state: it fails as
    /// [`Self::output_utf8_ok`] does, and on output that names no
    /// build-state.
    pub fn output_from_str(&self, out: &ProcessOutput) -> (r: Result<ConfigStatus, CommandError>)
        ensures
            parsed_view(r) == parsed(self@, out@),
    {
        match self.output_utf8_ok(out) {
            Err(e) => Err(e),
            Ok(text) => match ConfigStatus::parse(text.as_str()) {
                Some(status) => Ok(status),
                None => Err(CommandError { command: self.clone(), fault: Fault::Parse }),
            },
        }
    }
}

/// A host-side call of the backend with the given arguments.
pub fn backend_command(settings: &Settings, first: &str, second: &str) -> (r: HostCommand)
    ensures
        r@ == backend_call(settings@, seq![first@, second@]),
{
    let mut args: Vec<String> = Vec::new();
    args.push(String::from_str(first));
    args.push(String::from_str(second));
    let env: Vec<(String, String)> = Vec::new();
    let r = HostCommand { program: settings.wsl_program.clone(), args, env, stdin: None };
    r
}

} // verus!
