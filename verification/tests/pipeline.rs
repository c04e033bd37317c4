use codchi::backend::Registry;
use codchi::command::{
    CommandError, Fault, LinuxCommandBuilder, LinuxCommandDriver, ProcessOutput, Program,
};
use codchi::config::{
    EnvSecret, FlakeLocation, HostDir, LinuxPath, LinuxUser, MachineConfig, Module, Secret,
    Settings,
};
use codchi::install::InstallStep;
use codchi::machine::{Machine, MachineDriver, StatusProbe};
use codchi::pipeline::{uses_local, BuildState, BuildStep};
use codchi::protocol::{Action, Error, Event, Reply, Request};
use codchi::scripts::{render_build, ProfileOp};
use codchi::status::{ConfigStatus, PlatformStatus};

fn build_settings(debug: bool) -> Settings {
    Settings {
        debug,
        vcxsrv: false,
        wslenv: String::new(),
        wsl_program: "wsl.exe".to_string(),
        host_dir_config: "C:\\config".to_string(),
        host_dir_data: "C:\\data".to_string(),
        store_dir_config: LinuxPath("/config".to_string()),
        store_dir_data: LinuxPath("/data".to_string()),
        store_name: "codchistore".to_string(),
        machine_prefix: "codchi-".to_string(),
        default_user: "codchi".to_string(),
        flake_url: "github:aformatik/codchi".to_string(),
        driver_module: "codchi_driver".to_string(),
        nix_system: "x86_64-linux".to_string(),
        init_env: "/data/machine/init-env".to_string(),
        init_log: "init.log".to_string(),
        init_exit_err: "INIT_ERR".to_string(),
        init_exit_success: "INIT_SUCCESS".to_string(),
        store_rootfs: "store.tar.gz".to_string(),
        machine_rootfs: "machine.tar.gz".to_string(),
    }
}

fn build_module(name: &str, location: FlakeLocation) -> Module {
    Module {
        name: name.to_string(),
        location,
        url: format!("github:me/{}", name),
        flake_attr: "nixosModules.default".to_string(),
    }
}

fn build_machine(name: &str, location: FlakeLocation) -> Machine {
    Machine::read(
        MachineConfig {
            name: name.to_string(),
            nixpkgs_from: None,
            modules: vec![build_module("base", location)],
            secrets: Vec::new(),
        },
        None,
    )
}

fn exit(success: bool) -> Event {
    Event::Exit(ProcessOutput { success, stdout: Vec::new() })
}

/// A host that answers every request from what it holds, and keeps account
/// of what it was asked to do.
struct World {
    settings: Settings,
    instance: String,
    backend: Registry,
    marker: bool,
    declared: Vec<EnvSecret>,
    stored: MachineConfig,
    answers: Vec<String>,
    fail_import: bool,
    fail_spawn: bool,
    fail_stream: Option<String>,
    cancel_prompt: bool,
    flake_files: Vec<String>,
    prompts: Vec<(String, String)>,
    awake: bool,
    awake_while_building: Vec<bool>,
    profile_scripts: Vec<String>,
    removed: Vec<HostDir>,
    written: Vec<MachineConfig>,
    shortcuts: Vec<(String, bool)>,
    messages: Vec<String>,
    requests: Vec<&'static str>,
}

fn world(machine: &Machine, settings: Settings) -> World {
    World {
        instance: settings.machine_name(&machine.config.name),
        settings,
        backend: Registry::new(),
        marker: false,
        declared: Vec::new(),
        stored: machine.config.clone(),
        answers: Vec::new(),
        fail_import: false,
        fail_spawn: false,
        fail_stream: None,
        cancel_prompt: false,
        flake_files: Vec::new(),
        prompts: Vec::new(),
        awake: false,
        awake_while_building: Vec::new(),
        profile_scripts: Vec::new(),
        removed: Vec::new(),
        written: Vec::new(),
        shortcuts: Vec::new(),
        messages: Vec::new(),
        requests: Vec::new(),
    }
}

fn script_of(command: &LinuxCommandBuilder) -> String {
    match &command.program {
        Program::Script(text) => text.clone(),
        Program::Run { program, args } => format!("{} {}", program, args.join(" ")),
        Program::Shell => String::new(),
    }
}

fn perform(w: &mut World, action: Action) -> Option<Event> {
    match action {
        Action::WriteFile { dir, file, text } => {
            w.requests.push("write-flake");
            assert_eq!(dir, HostDir::MachineConfig(w.stored.name.clone()));
            assert!(text.starts_with("{\n  inputs = {"));
            w.flake_files.push(file);
            Some(Event::Performed)
        }
        Action::Status { instance } => {
            w.requests.push("status");
            Some(Event::Status(w.backend.status(&instance)))
        }
        Action::Follow(command) => {
            w.requests.push("follow");
            assert!(script_of(&command).starts_with("\ntouch \""));
            Some(Event::Performed)
        }
        Action::Host(command) => {
            w.requests.push("revert");
            assert_eq!(command.args, vec!["--unregister".to_string(), w.instance.clone()]);
            Some(exit(true))
        }
        Action::Spawn(command) => {
            w.requests.push("spawn");
            assert_eq!(script_of(&command), "sleep infinity");
            if w.fail_spawn {
                return Some(Event::Failed);
            }
            w.awake = true;
            Some(Event::Performed)
        }
        Action::Stream(command) => {
            let text = script_of(&command);
            if w.fail_stream.as_deref() == Some(text.as_str()) {
                w.requests.push("stream-failed");
                return Some(exit(false));
            }
            if text == "ndd $NIX_VERBOSITY flake update" {
                w.requests.push("update");
            } else if text.starts_with("\nwhile [ -f \"") {
                w.requests.push("start");
                let instance = w.instance.clone();
                w.backend.start(&instance);
            } else {
                w.requests.push("build");
                w.awake_while_building.push(w.awake);
                w.profile_scripts.push(text);
                w.marker = true;
            }
            Some(exit(true))
        }
        Action::Marker { dir, name } => {
            w.requests.push("marker");
            assert_eq!(dir, HostDir::MachineConfig(w.stored.name.clone()));
            assert_eq!(name, "system");
            Some(Event::Answer(w.marker))
        }
        Action::Run(command) => {
            let text = script_of(&command);
            if text == "pkill sleep" {
                w.requests.push("kill");
                w.awake = false;
                Some(exit(false))
            } else if text.starts_with("\nif [ ! -d .git ]") {
                w.requests.push("init-repo");
                Some(exit(true))
            } else {
                w.requests.push("switch");
                assert_eq!(text, "/nix/var/nix/profiles/system/bin/switch-to-configuration switch");
                assert_eq!(command.user, Some(LinuxUser::Root));
                let instance = w.instance.clone();
                w.backend.start(&instance);
                Some(exit(true))
            }
        }
        Action::Eval { cwd, attr } => {
            w.requests.push("eval");
            assert_eq!(cwd, LinuxPath(format!("/config/machine/{}", w.stored.name)));
            assert_eq!(attr, "nixosConfigurations.default.config.codchi.secrets.env");
            Some(Event::Secrets(w.declared.clone()))
        }
        Action::OpenConfig { name, lock } => {
            w.requests.push("open");
            assert_eq!(name, w.stored.name);
            assert!(lock);
            Some(Event::Config(w.stored.clone()))
        }
        Action::Prompt { message, help } => {
            w.requests.push("prompt");
            w.prompts.push((message, help));
            if w.cancel_prompt {
                Some(Event::Failed)
            } else {
                Some(Event::Text(w.answers.remove(0)))
            }
        }
        Action::WriteConfig(config) => {
            w.requests.push("write-config");
            w.stored = config.clone();
            w.written.push(config);
            Some(Event::Performed)
        }
        Action::Import { rootfs, instance, data } => {
            w.requests.push("import");
            assert_eq!(rootfs, "machine.tar.gz");
            assert_eq!(data, HostDir::MachineData(w.stored.name.clone()));
            if w.fail_import {
                Some(Event::Failed)
            } else {
                assert!(w.backend.import(&instance));
                Some(Event::Performed)
            }
        }
        Action::RemoveDirs(dirs) => {
            w.requests.push("remove");
            w.removed.extend(dirs);
            Some(Event::Performed)
        }
        Action::Shortcuts { name, present } => {
            w.requests.push("shortcuts");
            w.shortcuts.push((name, present));
            Some(Event::Performed)
        }
        Action::Done | Action::Fail(_) => None,
        other => panic!("unexpected request {:?}", other),
    }
}

fn run_build(machine: &Machine, no_update: bool, w: &mut World) -> Result<(), Error> {
    let settings = w.settings.clone();
    let mut state = BuildState::new();
    let mut event = Event::Begin;
    for _ in 0..100 {
        let (next, reply) = machine.build(no_update, state, event, &settings);
        state = next;
        if let Some(message) = reply.message {
            w.messages.push(message);
        }
        match reply.action {
            Action::Done => {
                assert!(state.is_final());
                assert_eq!(state.step, BuildStep::Done);
                return Ok(());
            }
            Action::Fail(e) => {
                assert!(state.is_final());
                assert_eq!(state.step, BuildStep::Failed);
                return Err(e);
            }
            action => event = perform(w, action).unwrap(),
        }
    }
    panic!("the build does not end");
}

#[test]
fn a_fresh_machine_with_a_remote_module_is_built_and_installed() {
    let foo = build_machine("foo", FlakeLocation::Remote);
    let mut w = world(&foo, build_settings(false));
    assert_eq!(w.backend.status("codchi-foo"), PlatformStatus::NotInstalled);
    assert_eq!(run_build(&foo, false, &mut w), Ok(()));
    assert_eq!(w.backend.status("codchi-foo"), PlatformStatus::Running);
    assert_eq!(w.flake_files, vec!["flake.nix".to_string()]);
    assert!(w.prompts.is_empty());
    assert_eq!(w.profile_scripts, vec![render_build(ProfileOp::Install)]);
    assert_eq!(w.shortcuts, vec![("foo".to_string(), true)]);
    assert_eq!(
        w.requests,
        vec![
            "write-flake",
            "init-repo",
            "update",
            "marker",
            "build",
            "eval",
            "open",
            "write-config",
            "status",
            "status",
            "import",
            "start",
            "follow",
            "shortcuts",
        ]
    );
    assert_eq!(
        w.messages,
        vec![
            "Building foo...",
            "Evaluating secrets...",
            "Building foo...",
            "Installing foo...",
            "Updating start menu shortcuts...",
        ]
    );
    let probe = StatusProbe {
        platform: Machine::read_platform_status("foo", &w.backend, &w.settings),
        marker_present: w.marker,
        recipe_diff: Vec::new(),
        lock_diff: Vec::new(),
    };
    let after = Machine::read(w.stored.clone(), Some(&probe));
    assert_eq!(after.platform_status, PlatformStatus::Running);
    assert_eq!(after.config_status, ConfigStatus::UpToDate);
}

#[test]
fn a_stopped_machine_with_a_local_module_is_kept_awake_and_upgraded() {
    let bar = build_machine("bar", FlakeLocation::Local);
    let mut w = world(&bar, build_settings(false));
    w.backend.import("codchi-bar");
    w.marker = true;
    assert_eq!(w.backend.status("codchi-bar"), PlatformStatus::Stopped);
    assert_eq!(run_build(&bar, false, &mut w), Ok(()));
    assert_eq!(w.backend.status("codchi-bar"), PlatformStatus::Running);
    assert_eq!(w.awake_while_building, vec![true]);
    assert!(!w.awake);
    assert_eq!(w.profile_scripts, vec![render_build(ProfileOp::Upgrade)]);
    assert_eq!(
        w.requests,
        vec![
            "write-flake",
            "init-repo",
            "status",
            "start",
            "follow",
            "spawn",
            "update",
            "marker",
            "build",
            "kill",
            "eval",
            "open",
            "write-config",
            "status",
            "switch",
            "shortcuts",
        ]
    );
    assert_eq!(w.messages[0], "Building bar...");
    assert_eq!(w.messages[1], "Starting bar...");
}

#[test]
fn a_running_machine_with_a_local_module_is_not_started_again() {
    let bar = build_machine("bar", FlakeLocation::Local);
    let mut w = world(&bar, build_settings(false));
    w.backend.import("codchi-bar");
    w.backend.start("codchi-bar");
    w.marker = true;
    assert_eq!(run_build(&bar, true, &mut w), Ok(()));
    assert_eq!(
        w.requests,
        vec![
            "write-flake",
            "init-repo",
            "status",
            "spawn",
            "marker",
            "build",
            "kill",
            "eval",
            "open",
            "write-config",
            "status",
            "switch",
            "shortcuts",
        ]
    );
}

#[test]
fn local_modules_need_a_container() {
    let bar = build_machine("bar", FlakeLocation::Local);
    let mut w = world(&bar, build_settings(false));
    let err = run_build(&bar, false, &mut w).unwrap_err();
    assert_eq!(err, Error::LocalModules("bar".to_string()));
    assert_eq!(
        err.message(),
        Some(
            "Can't build machine bar as it uses local modules but wasn't installed yet!"
                .to_string()
        )
    );
    assert_eq!(w.requests, vec!["write-flake", "init-repo", "status"]);
    assert_eq!(w.backend.status("codchi-bar"), PlatformStatus::NotInstalled);
}

#[test]
fn no_update_leaves_the_lock_alone() {
    let foo = build_machine("foo", FlakeLocation::Remote);
    let mut w = world(&foo, build_settings(false));
    assert_eq!(run_build(&foo, true, &mut w), Ok(()));
    assert!(!w.requests.contains(&"update"));
    assert_eq!(w.messages[0], "Building foo...");
}

#[test]
fn a_stopped_machine_is_started_before_the_switch() {
    let foo = build_machine("foo", FlakeLocation::Remote);
    let mut w = world(&foo, build_settings(false));
    w.backend.import("codchi-foo");
    w.marker = true;
    assert_eq!(run_build(&foo, false, &mut w), Ok(()));
    let tail: Vec<&str> = w.requests[w.requests.len() - 5..].to_vec();
    assert_eq!(tail, vec!["status", "start", "follow", "switch", "shortcuts"]);
    assert!(!w.requests.contains(&"import"));
    assert!(!w.requests.contains(&"spawn"));
}

#[test]
fn stored_secrets_are_kept_and_missing_ones_are_asked_for() {
    let mut foo = build_machine("foo", FlakeLocation::Remote);
    foo.config.secrets = vec![Secret { name: "A".to_string(), value: "x".to_string() }];
    let mut w = world(&foo, build_settings(false));
    w.declared = vec![
        EnvSecret { name: "A".to_string(), description: "first".to_string() },
        EnvSecret { name: "B".to_string(), description: "  second \n".to_string() },
    ];
    w.answers = vec!["typed".to_string()];
    assert_eq!(run_build(&foo, false, &mut w), Ok(()));
    assert_eq!(
        w.prompts,
        vec![(
            "Please enter secret 'B' (Toggle input mask with <Ctrl+R>):".to_string(),
            "second".to_string()
        )]
    );
    assert_eq!(w.written.len(), 1);
    assert_eq!(
        w.written[0].secrets,
        vec![
            Secret { name: "A".to_string(), value: "x".to_string() },
            Secret { name: "B".to_string(), value: "typed".to_string() },
        ]
    );
    assert_eq!(w.written[0].modules, foo.config.modules);
    assert_eq!(w.written[0].name, "foo");
}

#[test]
fn a_cancelled_prompt_ends_the_build() {
    let foo = build_machine("foo", FlakeLocation::Remote);
    let mut w = world(&foo, build_settings(false));
    w.declared = vec![EnvSecret { name: "B".to_string(), description: String::new() }];
    w.cancel_prompt = true;
    assert_eq!(
        run_build(&foo, false, &mut w),
        Err(Error::Action(Request::Prompt {
            message: "Please enter secret 'B' (Toggle input mask with <Ctrl+R>):".to_string()
        }))
    );
    assert!(w.written.is_empty());
    assert!(!w.requests.contains(&"import"));
}

fn failed_import() -> Error {
    Error::Action(Request::Import {
        rootfs: "machine.tar.gz".to_string(),
        instance: "codchi-foo".to_string(),
        data: HostDir::MachineData("foo".to_string()),
    })
}

#[test]
fn a_failed_install_removes_the_leftovers_without_debug() {
    let foo = build_machine("foo", FlakeLocation::Remote);
    let mut w = world(&foo, build_settings(false));
    w.fail_import = true;
    assert_eq!(run_build(&foo, false, &mut w), Err(failed_import()));
    assert_eq!(
        w.removed,
        vec![HostDir::MachineConfig("foo".to_string()), HostDir::MachineData("foo".to_string())]
    );
    assert_eq!(w.messages.last().unwrap(), "Removing leftovers of machine files for foo...");
    assert!(w.shortcuts.is_empty());
    let tail: Vec<&str> = w.requests[w.requests.len() - 3..].to_vec();
    assert_eq!(tail, vec!["import", "revert", "remove"]);
    assert_eq!(w.backend.status("codchi-foo"), PlatformStatus::NotInstalled);
}

#[test]
fn a_failed_install_keeps_the_leftovers_with_debug() {
    let foo = build_machine("foo", FlakeLocation::Remote);
    let mut w = world(&foo, build_settings(true));
    w.fail_import = true;
    assert_eq!(run_build(&foo, false, &mut w), Err(failed_import()));
    assert!(w.removed.is_empty());
    assert!(!w.requests.contains(&"remove"));
}

#[test]
fn a_failed_update_names_the_command() {
    let foo = build_machine("foo", FlakeLocation::Remote);
    let settings = build_settings(false);
    let mut w = world(&foo, build_settings(false));
    w.fail_stream = Some("ndd $NIX_VERBOSITY flake update".to_string());
    let err = run_build(&foo, false, &mut w).unwrap_err();
    assert_eq!(
        err,
        Error::Command {
            error: CommandError { command: foo.update_flake(&settings), fault: Fault::Exit },
            context: None,
        }
    );
    assert_eq!(err.message(), None);
    assert_eq!(w.requests, vec!["write-flake", "init-repo", "stream-failed"]);
}

#[test]
fn a_failed_profile_build_leaves_the_awaker_alone() {
    let bar = build_machine("bar", FlakeLocation::Local);
    let settings = build_settings(false);
    let mut w = world(&bar, build_settings(false));
    w.backend.import("codchi-bar");
    w.backend.start("codchi-bar");
    w.marker = true;
    w.fail_stream = Some(render_build(ProfileOp::Upgrade));
    let err = run_build(&bar, true, &mut w).unwrap_err();
    assert_eq!(
        err,
        Error::Command {
            error: CommandError {
                command: bar.build_profile(ProfileOp::Upgrade, &settings),
                fault: Fault::Exit
            },
            context: None,
        }
    );
    assert!(!w.requests.contains(&"kill"));
}

#[test]
fn the_first_request_of_a_build_writes_the_description() {
    let foo = build_machine("foo", FlakeLocation::Remote);
    let settings = build_settings(false);
    let (state, reply) = foo.build(false, BuildState::new(), Event::Begin, &settings);
    assert_eq!(state.step, BuildStep::WritingFlake);
    let write = foo.write_flake(&settings);
    assert_eq!(
        reply,
        Reply {
            message: None,
            action: Action::WriteFile { dir: write.dir, file: write.file, text: write.text },
        }
    );
}

#[test]
fn a_failed_write_of_the_description_ends_the_build() {
    let foo = build_machine("foo", FlakeLocation::Remote);
    let settings = build_settings(false);
    let (state, _) = foo.build(false, BuildState::new(), Event::Begin, &settings);
    let (state, reply) = foo.build(false, state, Event::Failed, &settings);
    assert_eq!(state.step, BuildStep::Failed);
    assert_eq!(
        reply.action,
        Action::Fail(Error::Action(Request::WriteFile {
            dir: HostDir::MachineConfig("foo".to_string()),
            file: "flake.nix".to_string(),
        }))
    );
    let (state, _) = foo.build(false, BuildState::new(), Event::Begin, &settings);
    let (state, reply) = foo.build(false, state, Event::Performed, &settings);
    assert_eq!(state.step, BuildStep::InitRepo);
    assert_eq!(reply.action, Action::Run(foo.write_flake(&settings).init));
    for (event, fault) in [(exit(false), Fault::Exit), (Event::Failed, Fault::Start)] {
        let mut waiting = BuildState::new();
        waiting.step = BuildStep::InitRepo;
        let (state, reply) = foo.build(false, waiting, event, &settings);
        assert_eq!(state.step, BuildStep::Failed);
        assert_eq!(
            reply.action,
            Action::Fail(Error::Command {
                error: CommandError { command: foo.write_flake(&settings).init, fault },
                context: None,
            })
        );
    }
}

#[test]
fn an_answer_that_was_not_asked_for_ends_the_build() {
    let foo = build_machine("foo", FlakeLocation::Remote);
    let settings = build_settings(false);
    let (state, reply) = foo.build(false, BuildState::new(), Event::Performed, &settings);
    assert_eq!(state.step, BuildStep::Failed);
    assert_eq!(reply.action, Action::Fail(Error::Unexpected));
    let (state, _) = foo.build(false, BuildState::new(), Event::Begin, &settings);
    let (state, reply) = foo.build(false, state, Event::Answer(true), &settings);
    assert_eq!(state.step, BuildStep::Failed);
    assert_eq!(reply.action, Action::Fail(Error::Unexpected));
}

#[test]
fn a_finished_build_stays_finished() {
    let foo = build_machine("foo", FlakeLocation::Remote);
    let settings = build_settings(false);
    let mut done = BuildState::new();
    done.step = BuildStep::Done;
    let (state, reply) = foo.build(false, done, Event::Performed, &settings);
    assert_eq!(state.step, BuildStep::Done);
    assert_eq!(reply.action, Action::Done);
}

#[test]
fn the_awaker_and_its_end_are_commands_in_the_machine() {
    let foo = build_machine("foo", FlakeLocation::Remote);
    let settings = build_settings(false);
    let driver = LinuxCommandDriver { instance_name: "codchi-foo".to_string() };
    assert_eq!(foo.awaker(&settings), driver.run("sleep", &["infinity"]));
    assert_eq!(foo.kill_awaker(&settings), driver.run("pkill", &["sleep"]));
    assert_eq!(
        foo.switch_configuration(&settings),
        driver
            .run("/nix/var/nix/profiles/system/bin/switch-to-configuration", &["switch"])
            .with_user(LinuxUser::Root)
    );
}

#[test]
fn local_modules_are_found_among_the_modules() {
    assert!(!uses_local(&Vec::new()));
    assert!(!uses_local(&vec![build_module("a", FlakeLocation::Remote)]));
    assert!(uses_local(&vec![
        build_module("a", FlakeLocation::Remote),
        build_module("b", FlakeLocation::Local)
    ]));
}

#[test]
fn installing_skips_an_existing_container() {
    let foo = build_machine("foo", FlakeLocation::Remote);
    let settings = build_settings(false);
    let (step, reply) = foo.install(InstallStep::Start, Event::Begin, &settings);
    assert_eq!(step, InstallStep::Checking);
    assert_eq!(reply.action, Action::Status { instance: "codchi-foo".to_string() });
    for status in [PlatformStatus::Stopped, PlatformStatus::Running] {
        let (step, reply) = foo.install(InstallStep::Checking, Event::Status(status), &settings);
        assert_eq!(step, InstallStep::Done);
        assert_eq!(reply, Reply { message: None, action: Action::Done });
    }
}

#[test]
fn installing_imports_and_then_starts() {
    let foo = build_machine("foo", FlakeLocation::Remote);
    let settings = build_settings(false);
    let (step, reply) = foo.install(
        InstallStep::Checking,
        Event::Status(PlatformStatus::NotInstalled),
        &settings,
    );
    assert_eq!(step, InstallStep::Importing);
    assert_eq!(
        reply.action,
        Action::Import {
            rootfs: "machine.tar.gz".to_string(),
            instance: "codchi-foo".to_string(),
            data: HostDir::MachineData("foo".to_string()),
        }
    );
    let (step, reply) = foo.install(step, Event::Performed, &settings);
    assert_eq!(step, InstallStep::Starting);
    assert_eq!(reply.action, Action::Stream(foo.start(&settings).write_env));
    let (step, reply) = foo.install(step, exit(true), &settings);
    assert_eq!(step, InstallStep::Following);
    assert_eq!(reply.action, Action::Follow(foo.start(&settings).tail_log));
    let (step, reply) = foo.install(step, Event::Performed, &settings);
    assert_eq!(step, InstallStep::Done);
    assert_eq!(reply.action, Action::Done);
}

#[test]
fn installing_twice_imports_and_starts_once() {
    let foo = build_machine("foo", FlakeLocation::Remote);
    let settings = build_settings(false);
    let mut backend = Registry::new();
    let mut imports = 0;
    let mut starts = 0;
    for _ in 0..2 {
        let mut step = InstallStep::Start;
        let mut event = Event::Begin;
        loop {
            let (next, reply) = foo.install(step, event, &settings);
            step = next;
            event = match reply.action {
                Action::Status { instance } => Event::Status(backend.status(&instance)),
                Action::Import { instance, .. } => {
                    imports += 1;
                    assert!(backend.import(&instance));
                    Event::Performed
                }
                Action::Stream(_) => {
                    starts += 1;
                    backend.start("codchi-foo");
                    exit(true)
                }
                Action::Follow(_) => Event::Performed,
                Action::Done => break,
                other => panic!("unexpected request {:?}", other),
            };
        }
        assert_eq!(step, InstallStep::Done);
    }
    assert_eq!(imports, 1);
    assert_eq!(starts, 1);
    assert_eq!(backend.instances.len(), 1);
    assert_eq!(backend.status("codchi-foo"), PlatformStatus::Running);
}

#[test]
fn a_failed_first_start_fails_the_installation() {
    let foo = build_machine("foo", FlakeLocation::Remote);
    let settings = build_settings(false);
    let (step, reply) = foo.install(InstallStep::Starting, exit(false), &settings);
    assert_eq!(step, InstallStep::Failed);
    assert_eq!(
        reply.action,
        Action::Fail(Error::Command {
            error: CommandError { command: foo.start(&settings).write_env, fault: Fault::Exit },
            context: None,
        })
    );
    let (step, reply) = foo.install(InstallStep::Starting, Event::Failed, &settings);
    assert_eq!(step, InstallStep::Failed);
    assert_eq!(
        reply.action,
        Action::Fail(Error::Command {
            error: CommandError { command: foo.start(&settings).write_env, fault: Fault::Start },
            context: None,
        })
    );
}

#[test]
fn a_failed_import_is_unregistered_before_it_is_reported() {
    let foo = build_machine("foo", FlakeLocation::Remote);
    let settings = build_settings(false);
    let (step, reply) = foo.install(InstallStep::Importing, Event::Failed, &settings);
    assert_eq!(step, InstallStep::Reverting);
    assert_eq!(reply.action, Action::Host(foo.delete_container(&settings)));
    for event in [exit(true), exit(false), Event::Failed] {
        let (step, reply) = foo.install(InstallStep::Reverting, event, &settings);
        assert_eq!(step, InstallStep::Failed);
        assert_eq!(reply.action, Action::Fail(failed_import()));
    }
    let (step, reply) = foo.install(InstallStep::Checking, Event::Failed, &settings);
    assert_eq!(step, InstallStep::Failed);
    assert_eq!(
        reply.action,
        Action::Fail(Error::Action(Request::Status { instance: "codchi-foo".to_string() }))
    );
}

#[test]
fn a_keep_awake_task_that_cannot_be_spawned_is_done_without() {
    let bar = build_machine("bar", FlakeLocation::Local);
    let mut w = world(&bar, build_settings(false));
    w.backend.import("codchi-bar");
    w.backend.start("codchi-bar");
    w.marker = true;
    w.fail_spawn = true;
    assert_eq!(run_build(&bar, true, &mut w), Ok(()));
    assert!(w.requests.contains(&"spawn"));
    assert!(!w.requests.contains(&"kill"));
    assert_eq!(w.awake_while_building, vec![false]);
}
