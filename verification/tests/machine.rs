use codchi::backend::Registry;
use codchi::command::{HostCommand, LinuxCommandBuilder, LinuxCommandDriver, Program};
use codchi::config::{
    FlakeLocation, HostDir, LinuxPath, MachineConfig, Module, Secret, Settings,
};
use codchi::flake::{render_flake, FlakeWrite};
use codchi::machine::{Machine, MachineDriver, StatusProbe};
use codchi::protocol::{Action, Error, Reply, StartPlan};
use codchi::scripts::{render_build, render_runtime, ProfileOp};
use codchi::status::{ConfigStatus, PlatformStatus};

fn machine_settings() -> Settings {
    Settings {
        debug: false,
        vcxsrv: false,
        wslenv: String::new(),
        wsl_program: "wsl.exe".to_string(),
        host_dir_config: "C:\\config".to_string(),
        host_dir_data: "C:\\data".to_string(),
        store_dir_config: LinuxPath("/config".to_string()),
        store_dir_data: LinuxPath("/data".to_string()),
        store_name: "codchistore".to_string(),
        machine_prefix: "codchi-".to_string(),
        default_user: "codchi".to_string(),
        flake_url: "github:aformatik/codchi".to_string(),
        driver_module: "codchi_driver".to_string(),
        nix_system: "x86_64-linux".to_string(),
        init_env: "/data/machine/init-env".to_string(),
        init_log: "init.log".to_string(),
        init_exit_err: "INIT_ERR".to_string(),
        init_exit_success: "INIT_SUCCESS".to_string(),
        store_rootfs: "store.tar.gz".to_string(),
        machine_rootfs: "machine.tar.gz".to_string(),
    }
}

fn module(name: &str, url: &str, attr: &str) -> Module {
    Module {
        name: name.to_string(),
        location: FlakeLocation::Remote,
        url: url.to_string(),
        flake_attr: attr.to_string(),
    }
}

fn config(name: &str, modules: Vec<Module>) -> MachineConfig {
    MachineConfig { name: name.to_string(), nixpkgs_from: None, modules, secrets: Vec::new() }
}

fn machine(name: &str) -> Machine {
    Machine::read(config(name, vec![module("base", "github:me/base", "nixosModules.default")]), None)
}

fn store() -> LinuxCommandDriver {
    LinuxCommandDriver { instance_name: "codchistore".to_string() }
}

fn probe(platform: PlatformStatus, marker: bool, recipe: &[u8], lock: &[u8]) -> StatusProbe {
    StatusProbe {
        platform,
        marker_present: marker,
        recipe_diff: recipe.to_vec(),
        lock_diff: lock.to_vec(),
    }
}

#[test]
fn a_machine_is_read_as_not_installed() {
    let m = machine("foo");
    assert_eq!(m.platform_status, PlatformStatus::NotInstalled);
    assert_eq!(m.config_status, ConfigStatus::NotInstalled);
    assert_eq!(m.config.name, "foo");
}

#[test]
fn status_before_any_install_is_not_installed_twice() {
    let settings = machine_settings();
    let backend = Registry::new();
    for name in ["foo", "bar", "x y", ""] {
        let platform = Machine::read_platform_status(name, &backend, &settings);
        assert_eq!(platform, PlatformStatus::NotInstalled);
        let p = probe(platform, true, b"changed", b"changed");
        let m = Machine::read(config(name, Vec::new()), Some(&p));
        assert_eq!(m.platform_status, PlatformStatus::NotInstalled);
        assert_eq!(m.config_status, ConfigStatus::NotInstalled);
    }
}

#[test]
fn the_run_state_is_asked_under_the_instance_name() {
    let settings = machine_settings();
    let mut backend = Registry::new();
    backend.import("codchi-foo");
    backend.import("bar");
    assert_eq!(
        Machine::read_platform_status("foo", &backend, &settings),
        PlatformStatus::Stopped
    );
    assert_eq!(
        Machine::read_platform_status("bar", &backend, &settings),
        PlatformStatus::NotInstalled
    );
    backend.start("codchi-foo");
    assert_eq!(
        Machine::read_platform_status("foo", &backend, &settings),
        PlatformStatus::Running
    );
}

#[test]
fn a_status_check_follows_the_diffs() {
    let up = machine("foo").update_status(&probe(PlatformStatus::Running, true, b"", b"\n"));
    assert_eq!(up.platform_status, PlatformStatus::Running);
    assert_eq!(up.config_status, ConfigStatus::UpToDate);
    let lock = machine("foo").update_status(&probe(PlatformStatus::Stopped, true, b"", b"+x"));
    assert_eq!(lock.platform_status, PlatformStatus::Stopped);
    assert_eq!(lock.config_status, ConfigStatus::UpdatesAvailable);
    let both = machine("foo").update_status(&probe(PlatformStatus::Stopped, true, b"-y", b"+x"));
    assert_eq!(both.config_status, ConfigStatus::Modified);
    let recipe = machine("foo").update_status(&probe(PlatformStatus::Stopped, true, b"-y", b""));
    assert_eq!(recipe.config_status, ConfigStatus::Modified);
}

#[test]
fn a_container_without_a_built_system_is_not_installed() {
    let m = machine("foo").update_status(&probe(PlatformStatus::Running, false, b"", b""));
    assert_eq!(m.platform_status, PlatformStatus::Running);
    assert_eq!(m.config_status, ConfigStatus::NotInstalled);
}

#[test]
fn the_diff_check_runs_only_for_an_installed_machine() {
    assert!(StatusProbe::needs_diff(PlatformStatus::Running, true));
    assert!(StatusProbe::needs_diff(PlatformStatus::Stopped, true));
    assert!(!StatusProbe::needs_diff(PlatformStatus::NotInstalled, true));
    assert!(!StatusProbe::needs_diff(PlatformStatus::Running, false));
}

#[test]
fn the_diff_check_compares_recipe_and_lock() {
    let (recipe, lock) = machine("foo").diff_commands(&machine_settings());
    assert_eq!(
        recipe,
        store()
            .run("git", &["diff", "flake.nix"])
            .with_cwd(LinuxPath("/config/machine/foo".to_string()))
    );
    assert_eq!(
        lock,
        store()
            .run("git", &["diff", "flake.lock"])
            .with_cwd(LinuxPath("/config/machine/foo".to_string()))
    );
}

#[test]
fn by_name_finds_the_machine_or_fails() {
    let configs = vec![config("foo", Vec::new()), config("bar", Vec::new())];
    let found = Machine::by_name("bar", &configs, None).unwrap();
    assert_eq!(found.config, configs[1]);
    assert_eq!(found.config_status, ConfigStatus::NotInstalled);
    let p = probe(PlatformStatus::Running, true, b"", b"");
    let checked = Machine::by_name("foo", &configs, Some(&p)).unwrap();
    assert_eq!(checked.platform_status, PlatformStatus::Running);
    assert_eq!(checked.config_status, ConfigStatus::UpToDate);
    assert_eq!(
        Machine::by_name("baz", &configs, None),
        Err(Error::NotFound("baz".to_string()))
    );
    assert_eq!(
        Machine::by_name("foo", &Vec::new(), None),
        Err(Error::NotFound("foo".to_string()))
    );
}

#[test]
fn list_reads_every_configuration_in_order() {
    let entries = vec![
        (config("foo", Vec::new()), None),
        (config("bar", Vec::new()), Some(probe(PlatformStatus::Stopped, true, b"x", b""))),
    ];
    let all = Machine::list(entries);
    assert_eq!(all.len(), 2);
    assert_eq!(all[0].config.name, "foo");
    assert_eq!(all[0].platform_status, PlatformStatus::NotInstalled);
    assert_eq!(all[1].config.name, "bar");
    assert_eq!(all[1].platform_status, PlatformStatus::Stopped);
    assert_eq!(all[1].config_status, ConfigStatus::Modified);
    assert_eq!(Machine::list(Vec::new()), Vec::new());
}

#[test]
fn the_build_description_of_one_module() {
    let text = render_flake(&machine("foo").config, &machine_settings());
    let expected = [
        "{",
        "  inputs = {",
        "    codchi_driver.url = \"github:aformatik/codchi\";",
        "    \"base\".url = \"github:me/base\";",
        "  };",
        "  outputs = inputs: {",
        "    nixosConfigurations.default = inputs.codchi_driver.lib.codeMachine {",
        "      driver = \"wsl\";",
        "      system = \"x86_64-linux\";",
        "      nixpkgs = inputs.codchi_driver.inputs.nixpkgs;",
        "      modules = [",
        "        inputs.\"base\".nixosModules.default",
        "      ];",
        "    };",
        "  };",
        "}",
    ]
    .join("\n");
    assert_eq!(text, expected);
}

#[test]
fn the_build_description_of_two_modules_following_one() {
    let mut cfg = config(
        "foo",
        vec![
            module("base", "github:me/base", "nixosModules.default"),
            module("jvm", "git+file:///home/me/jvm", "nixosModules.jvm"),
        ],
    );
    cfg.nixpkgs_from = Some("jvm".to_string());
    let text = render_flake(&cfg, &machine_settings());
    let expected = [
        "{",
        "  inputs = {",
        "    codchi_driver.url = \"github:aformatik/codchi\";",
        "    \"base\".url = \"github:me/base\";",
        "    \"jvm\".url = \"git+file:///home/me/jvm\";",
        "  };",
        "  outputs = inputs: {",
        "    nixosConfigurations.default = inputs.codchi_driver.lib.codeMachine {",
        "      driver = \"wsl\";",
        "      system = \"x86_64-linux\";",
        "      nixpkgs = inputs.\"jvm\".inputs.nixpkgs;",
        "      modules = [",
        "        inputs.\"base\".nixosModules.default",
        "        inputs.\"jvm\".nixosModules.jvm",
        "      ];",
        "    };",
        "  };",
        "}",
    ]
    .join("\n");
    assert_eq!(text, expected);
}

#[test]
fn the_build_description_without_modules_keeps_its_frame() {
    let text = render_flake(&config("foo", Vec::new()), &machine_settings());
    let expected = [
        "{",
        "  inputs = {",
        "    codchi_driver.url = \"github:aformatik/codchi\";",
        "",
        "  };",
        "  outputs = inputs: {",
        "    nixosConfigurations.default = inputs.codchi_driver.lib.codeMachine {",
        "      driver = \"wsl\";",
        "      system = \"x86_64-linux\";",
        "      nixpkgs = inputs.codchi_driver.inputs.nixpkgs;",
        "      modules = [",
        "",
        "      ];",
        "    };",
        "  };",
        "}",
    ]
    .join("\n");
    assert_eq!(text, expected);
}

#[test]
fn writing_the_build_description_names_directory_file_and_command() {
    let settings = machine_settings();
    let m = machine("foo");
    let write = m.write_flake(&settings);
    assert_eq!(
        write,
        FlakeWrite {
            dir: HostDir::MachineConfig("foo".to_string()),
            file: "flake.nix".to_string(),
            text: render_flake(&m.config, &settings),
            init: store()
                .script(
                    "\nif [ ! -d .git ]; then\n  git init -q\n  git add flake.nix\nfi\n".to_string()
                )
                .with_cwd(LinuxPath("/config/machine/foo".to_string())),
        }
    );
}

#[test]
fn the_lock_is_refreshed_in_the_machines_directory() {
    assert_eq!(
        machine("foo").update_flake(&machine_settings()),
        store()
            .script("ndd $NIX_VERBOSITY flake update".to_string())
            .with_cwd(LinuxPath("/config/machine/foo".to_string()))
    );
}

#[test]
fn the_init_script_runs_in_the_machine() {
    assert_eq!(
        machine("foo").run_init_script(&machine_settings()),
        Reply {
            message: Some("Running init script of machine 'foo'...".to_string()),
            action: Action::Run(LinuxCommandBuilder {
                driver: LinuxCommandDriver { instance_name: "codchi-foo".to_string() },
                program: Program::Run { program: "codchi-init".to_string(), args: Vec::new() },
                user: None,
                cwd: None,
                env: Vec::new(),
            }),
        }
    );
}

#[test]
fn the_machines_driver_reaches_its_instance() {
    assert_eq!(
        machine("foo").cmd(&machine_settings()),
        LinuxCommandDriver { instance_name: "codchi-foo".to_string() }
    );
}

#[test]
fn starting_writes_the_environment_and_follows_the_log() {
    let mut settings = machine_settings();
    settings.debug = true;
    let mut m = machine("foo");
    m.config.secrets = vec![
        Secret { name: "TOKEN".to_string(), value: "abc".to_string() },
        Secret { name: "KEY".to_string(), value: "p w".to_string() },
    ];
    let env = [
        "",
        "while [ -f \"/data/machine/init-env\" ]; do",
        "    echo -e '\\e[1A\\e[KWaiting for machine init env...'",
        "    sleep .25",
        "done",
        "cat <<EOF > \"/data/machine/init-env\"",
        "CODCHI_DEBUG=\"true\"",
        "CODCHI_MACHINE_NAME=\"foo\"",
        "export CODCHI_TOKEN=\"abc\"",
        "export CODCHI_KEY=\"p w\"",
        "EOF",
        "",
    ]
    .join("\n");
    let tail = [
        "",
        "touch \"/data/machine/foo/init.log\"",
        "awk '/^INIT_ERR$/{ exit 1};/^INIT_SUCCESS$/{exit 0};1' < <(tail -f \"/data/machine/foo/init.log\")",
        "",
    ]
    .join("\n");
    assert_eq!(
        m.start(&settings),
        StartPlan { write_env: store().script(env), tail_log: store().script(tail) }
    );
}

#[test]
fn starting_without_secrets_leaves_an_empty_line() {
    let plan = machine("foo").start(&machine_settings());
    let text = match plan.write_env.program {
        Program::Script(text) => text,
        other => panic!("not a script: {:?}", other),
    };
    assert!(text.ends_with("CODCHI_DEBUG=\"false\"\nCODCHI_MACHINE_NAME=\"foo\"\n\nEOF\n"));
}

#[test]
fn stopping_and_deleting_call_the_backend() {
    let settings = machine_settings();
    let stop = HostCommand {
        program: "wsl.exe".to_string(),
        args: vec!["--terminate".to_string(), "codchi-foo".to_string()],
        env: Vec::new(),
        stdin: None,
    };
    assert_eq!(machine("foo").stop(true, &settings), stop);
    assert_eq!(machine("foo").stop(false, &settings), stop);
    assert_eq!(
        machine("foo").delete_container(&settings),
        HostCommand {
            program: "wsl.exe".to_string(),
            args: vec!["--unregister".to_string(), "codchi-foo".to_string()],
            env: Vec::new(),
            stdin: None,
        }
    );
}

#[test]
fn a_session_runs_the_first_word_with_the_others() {
    let settings = machine_settings();
    let cmd = machine("foo").create_exec_cmd(&["ls", "-l", "/tmp"], &settings);
    assert_eq!(
        cmd,
        LinuxCommandDriver { instance_name: "codchi-foo".to_string() }.run("ls", &["-l", "/tmp"])
    );
    let single = machine("foo").create_exec_cmd(&["bash"], &settings);
    assert_eq!(
        single,
        LinuxCommandDriver { instance_name: "codchi-foo".to_string() }.run("bash", &[])
    );
}

#[test]
fn a_session_without_words_is_a_shell() {
    let cmd = machine("foo").create_exec_cmd(&[], &machine_settings());
    assert_eq!(cmd, LinuxCommandDriver { instance_name: "codchi-foo".to_string() }.shell());
}

#[test]
fn the_build_script_installs_or_upgrades() {
    let head = "\nNIX_CFG_FILE=\"$(ndd build $NIX_VERBOSITY --no-link --print-out-paths \\\n    '.#nixosConfigurations.default.config.environment.etc.\"nix/nix.conf\".source')\"\nexport NIX_CONFIG=\"$(cat $NIX_CFG_FILE)\"\n";
    let tail = "pwd\ngit add flake.*\n";
    assert_eq!(
        render_build(ProfileOp::Install),
        format!(
            "{}ndd $NIX_VERBOSITY profile install --option warn-dirty false --profile system \\\n        '.#nixosConfigurations.default.config.system.build.toplevel'\n{}",
            head, tail
        )
    );
    assert_eq!(
        render_build(ProfileOp::Upgrade),
        format!(
            "{}ndd $NIX_VERBOSITY profile upgrade --option warn-dirty false --profile system '.*'\n{}",
            head, tail
        )
    );
    assert_eq!(ProfileOp::for_marker(false), ProfileOp::Install);
    assert_eq!(ProfileOp::for_marker(true), ProfileOp::Upgrade);
}

#[test]
fn the_runtime_script_names_the_store_package() {
    assert_eq!(
        render_runtime(&machine_settings()),
        "\nunset NIX_REMOTE\nnix build $NIX_VERBOSITY --no-link \\\n    github:aformatik/codchi#packages.x86_64-linux.store-wsl.config.build.runtime\n"
    );
}

#[test]
fn a_configuration_names_modules_and_secrets_once() {
    let mut cfg = config(
        "foo",
        vec![module("a", "github:me/a", "x"), module("b", "github:me/b", "x")],
    );
    cfg.secrets = vec![
        Secret { name: "A".to_string(), value: "1".to_string() },
        Secret { name: "B".to_string(), value: "1".to_string() },
    ];
    assert!(cfg.is_well_formed());
    assert!(config("foo", Vec::new()).is_well_formed());
    let mut twice = cfg.clone();
    twice.modules.push(module("a", "github:other/a", "y"));
    assert!(!twice.is_well_formed());
    let mut secret = cfg.clone();
    secret.secrets.push(Secret { name: "A".to_string(), value: "2".to_string() });
    assert!(!secret.is_well_formed());
}
