use codchi::command::{
    backend_command, CommandError, Fault, HostCommand, LinuxCommandBuilder, LinuxCommandDriver,
    ProcessOutput, Program,
};
use codchi::config::{LinuxPath, LinuxUser, Settings};
use codchi::status::ConfigStatus;

const SHARED: &str =
    "CODCHI_DEBUG:CODCHI_MACHINE_NAME:CODCHI_IS_STORE:WSL_CODCHI_DIR_CONFIG/up:WSL_CODCHI_DIR_DATA/up";

fn command_settings() -> Settings {
    Settings {
        debug: false,
        vcxsrv: false,
        wslenv: String::new(),
        wsl_program: "wsl.exe".to_string(),
        host_dir_config: "C:\\Users\\me\\AppData\\Roaming\\codchi".to_string(),
        host_dir_data: "C:\\Users\\me\\AppData\\Local\\codchi".to_string(),
        store_dir_config: LinuxPath("/config".to_string()),
        store_dir_data: LinuxPath("/data".to_string()),
        store_name: "codchistore".to_string(),
        machine_prefix: "codchi-".to_string(),
        default_user: "codchi".to_string(),
        flake_url: "github:aformatik/codchi".to_string(),
        driver_module: "codchi_driver".to_string(),
        nix_system: "x86_64-linux".to_string(),
        init_env: "/data/machine/init-env".to_string(),
        init_log: "init.log".to_string(),
        init_exit_err: "INIT_ERR".to_string(),
        init_exit_success: "INIT_SUCCESS".to_string(),
        store_rootfs: "store.tar.gz".to_string(),
        machine_rootfs: "machine.tar.gz".to_string(),
    }
}

fn strings(items: &[&str]) -> Vec<String> {
    items.iter().map(|s| s.to_string()).collect()
}

fn pairs(items: &[(&str, &str)]) -> Vec<(String, String)> {
    items.iter().map(|(k, v)| (k.to_string(), v.to_string())).collect()
}

fn driver(name: &str) -> LinuxCommandDriver {
    LinuxCommandDriver { instance_name: name.to_string() }
}

#[test]
fn quoting_wraps_in_single_quotes() {
    assert_eq!(driver("x").quote_shell_arg("a b"), "'a b'");
    assert_eq!(driver("x").quote_shell_arg(""), "''");
}

#[test]
fn quoting_does_not_escape_an_embedded_quote() {
    assert_eq!(driver("x").quote_shell_arg("it's"), "'it's'");
}

#[test]
fn driver_builds_the_default_call() {
    let settings = command_settings();
    let call = driver("codchi-foo").build(&None, &None, &Vec::new(), &settings);
    assert_eq!(
        call,
        HostCommand {
            program: "wsl.exe".to_string(),
            args: strings(&["-d", "codchi-foo", "--cd", "/", "--"]),
            env: pairs(&[
                ("CODCHI_DEBUG", ""),
                ("CODCHI_MACHINE_NAME", "codchi-foo"),
                ("CODCHI_IS_STORE", ""),
                ("WSL_CODCHI_DIR_CONFIG", "C:\\Users\\me\\AppData\\Roaming\\codchi"),
                ("WSL_CODCHI_DIR_DATA", "C:\\Users\\me\\AppData\\Local\\codchi"),
                ("WSLENV", SHARED),
            ]),
            stdin: None,
        }
    );
}

#[test]
fn only_the_store_carries_the_store_flag() {
    let settings = command_settings();
    let flag = |name: &str| driver(name).build(&None, &None, &Vec::new(), &settings).env[2].clone();
    assert_eq!(flag("codchistore"), ("CODCHI_IS_STORE".to_string(), "1".to_string()));
    assert_eq!(flag("codchi-foo"), ("CODCHI_IS_STORE".to_string(), String::new()));
    assert_eq!(flag("codchi-codchistore"), ("CODCHI_IS_STORE".to_string(), String::new()));
    assert_eq!(flag(""), ("CODCHI_IS_STORE".to_string(), String::new()));
}

#[test]
fn driver_selects_user_and_directory() {
    let settings = command_settings();
    let cwd = Some(LinuxPath("/config/machine/foo".to_string()));
    let root = driver("codchistore").build(&Some(LinuxUser::Root), &cwd, &Vec::new(), &settings);
    assert_eq!(
        root.args,
        strings(&["-d", "codchistore", "--cd", "/config/machine/foo", "--user", "root", "--"])
    );
    let user = driver("codchistore").build(&Some(LinuxUser::Default), &None, &Vec::new(), &settings);
    assert_eq!(user.args, strings(&["-d", "codchistore", "--cd", "/", "--user", "codchi", "--"]));
}

#[test]
fn driver_sets_the_debug_flag() {
    let mut settings = command_settings();
    settings.debug = true;
    let call = driver("s").build(&None, &None, &Vec::new(), &settings);
    assert_eq!(call.env[0], ("CODCHI_DEBUG".to_string(), "1".to_string()));
}

#[test]
fn driver_keeps_the_hosts_allow_list_in_front() {
    let mut settings = command_settings();
    settings.wslenv = "FOO/p:BAR".to_string();
    let call = driver("s").build(&None, &None, &Vec::new(), &settings);
    assert_eq!(
        call.env.last().unwrap(),
        &("WSLENV".to_string(), format!("FOO/p:BAR:{}", SHARED))
    );
}

#[test]
fn driver_shares_the_display_bridge_flag_when_enabled() {
    let mut settings = command_settings();
    settings.vcxsrv = true;
    let call = driver("s").build(&None, &None, &Vec::new(), &settings);
    assert_eq!(call.env.len(), 7);
    assert_eq!(call.env[5], ("CODCHI_WSL_USE_VCXSRV".to_string(), "1".to_string()));
    assert_eq!(
        call.env[6],
        ("WSLENV".to_string(), format!("{}:CODCHI_WSL_USE_VCXSRV", SHARED))
    );
}

#[test]
fn driver_does_not_forward_the_overlay() {
    let settings = command_settings();
    let overlay = pairs(&[("SECRET", "value")]);
    let with = driver("s").build(&None, &None, &overlay, &settings);
    let without = driver("s").build(&None, &None, &Vec::new(), &settings);
    assert_eq!(with, without);
}

#[test]
fn get_driver_gives_the_same_instance() {
    assert_eq!(driver("codchi-foo").get_driver(), driver("codchi-foo"));
}

#[test]
fn run_describes_a_program_with_arguments() {
    let cmd = driver("s").run("nix", &["store", "ping"]);
    assert_eq!(
        cmd,
        LinuxCommandBuilder {
            driver: driver("s"),
            program: Program::Run { program: "nix".to_string(), args: strings(&["store", "ping"]) },
            user: None,
            cwd: None,
            env: Vec::new(),
        }
    );
    assert_eq!(driver("s").run_words("nix", vec!["store", "ping"]), cmd);
}

#[test]
fn builders_set_user_and_directory() {
    let cmd = driver("s")
        .script("echo hi".to_string())
        .with_user(LinuxUser::Root)
        .with_cwd(LinuxPath("/tmp".to_string()));
    assert_eq!(cmd.program, Program::Script("echo hi".to_string()));
    assert_eq!(cmd.user, Some(LinuxUser::Root));
    assert_eq!(cmd.cwd, Some(LinuxPath("/tmp".to_string())));
}

#[test]
fn a_program_is_rendered_with_quoted_arguments() {
    let settings = command_settings();
    let call = driver("codchi-foo").run("pkill", &["sleep", "a b"]).command(&settings);
    assert_eq!(
        call.args,
        strings(&["-d", "codchi-foo", "--cd", "/", "--", "pkill", "'sleep'", "'a b'"])
    );
    assert_eq!(call.stdin, None);
    assert_eq!(call.program, "wsl.exe");
}

#[test]
fn a_script_is_fed_to_the_shell() {
    let settings = command_settings();
    let call = driver("codchistore").script("set -x\necho 'hi'\n".to_string()).command(&settings);
    assert_eq!(call.args, strings(&["-d", "codchistore", "--cd", "/", "--", "bash"]));
    assert_eq!(call.stdin, Some("set -x\necho 'hi'\n".to_string()));
}

#[test]
fn a_shell_is_the_bare_call() {
    let settings = command_settings();
    let call = driver("codchi-foo").shell().command(&settings);
    assert_eq!(call, driver("codchi-foo").build(&None, &None, &Vec::new(), &settings));
}

#[test]
fn backend_calls_have_no_environment() {
    let settings = command_settings();
    assert_eq!(
        backend_command(&settings, "--terminate", "codchi-foo"),
        HostCommand {
            program: "wsl.exe".to_string(),
            args: strings(&["--terminate", "codchi-foo"]),
            env: Vec::new(),
            stdin: None,
        }
    );
}

#[test]
fn wait_ok_fails_on_a_non_zero_exit() {
    let cmd = driver("s").run("true", &[]);
    assert_eq!(cmd.wait_ok(&ProcessOutput { success: true, stdout: vec![1, 2] }), Ok(()));
    assert_eq!(
        cmd.wait_ok(&ProcessOutput { success: false, stdout: Vec::new() }),
        Err(CommandError { command: cmd.clone(), fault: Fault::Exit })
    );
}

#[test]
fn output_is_decoded_as_utf8() {
    let cmd = driver("s").run("printf", &["ä"]);
    let out = ProcessOutput { success: true, stdout: vec![0xc3, 0xa4, b'\n'] };
    assert_eq!(cmd.output_utf8_ok(&out), Ok("ä\n".to_string()));
}

#[test]
fn output_fails_on_exit_before_encoding() {
    let cmd = driver("s").run("printf", &[]);
    let out = ProcessOutput { success: false, stdout: vec![0xff] };
    assert_eq!(
        cmd.output_utf8_ok(&out),
        Err(CommandError { command: cmd.clone(), fault: Fault::Exit })
    );
}

#[test]
fn output_fails_on_invalid_utf8() {
    let cmd = driver("s").run("printf", &[]);
    let out = ProcessOutput { success: true, stdout: vec![b'a', 0xff] };
    assert_eq!(
        cmd.output_utf8_ok(&out),
        Err(CommandError { command: cmd.clone(), fault: Fault::Encoding })
    );
}

#[test]
fn output_is_read_as_a_status() {
    let cmd = driver("s").run("printf", &[]);
    let ok = ProcessOutput { success: true, stdout: b"UpdatesAvailable".to_vec() };
    assert_eq!(cmd.output_from_str(&ok), Ok(ConfigStatus::UpdatesAvailable));
    let unknown = ProcessOutput { success: true, stdout: b"updatesavailable".to_vec() };
    assert_eq!(
        cmd.output_from_str(&unknown),
        Err(CommandError { command: cmd.clone(), fault: Fault::Parse })
    );
    let failed = ProcessOutput { success: false, stdout: b"UpToDate".to_vec() };
    assert_eq!(
        cmd.output_from_str(&failed),
        Err(CommandError { command: cmd.clone(), fault: Fault::Exit })
    );
}

#[test]
fn paths_are_joined_with_slashes() {
    let base = LinuxPath("/config".to_string());
    assert_eq!(base.join_str("x"), LinuxPath("/config/x".to_string()));
    assert_eq!(base.join_store(), LinuxPath("/config/store".to_string()));
    assert_eq!(base.join_machine("foo"), LinuxPath("/config/machine/foo".to_string()));
}

#[test]
fn settings_name_instances_and_directories() {
    let settings = command_settings();
    assert_eq!(settings.machine_name("foo"), "codchi-foo");
    assert_eq!(settings.machine_config_dir("foo"), LinuxPath("/config/machine/foo".to_string()));
    assert_eq!(settings.machine_data_dir("foo"), LinuxPath("/data/machine/foo".to_string()));
    assert_eq!(settings.init_log("foo"), LinuxPath("/data/machine/foo/init.log".to_string()));
}
