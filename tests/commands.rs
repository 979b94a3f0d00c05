use opencode_cli::command::{create_command, get_user_shell, InvocationMode};
use opencode_cli::config::config_command;
use opencode_cli::install::installer_command;
use opencode_cli::sync::version_command;

fn strings(v: &[&str]) -> Vec<String> {
    v.iter().map(|s| s.to_string()).collect()
}

#[test]
fn shell_defaults_when_unset() {
    assert_eq!(get_user_shell(None), "/bin/sh");
}

#[test]
fn shell_defaults_when_empty() {
    assert_eq!(get_user_shell(Some(String::new())), "/bin/sh");
}

#[test]
fn shell_follows_preference() {
    assert_eq!(get_user_shell(Some("/usr/bin/fish".to_string())), "/usr/bin/fish");
}

#[test]
fn mode_per_platform() {
    assert_eq!(InvocationMode::for_platform(true), InvocationMode::ShellWrapped);
    assert_eq!(InvocationMode::for_platform(false), InvocationMode::Direct);
}

#[test]
fn direct_command_keeps_arguments() {
    let args = strings(&["debug", "a b"]);
    let cmd = create_command("C:\\app\\opencode-cli.exe", &args, InvocationMode::Direct, "/bin/sh");
    assert_eq!(cmd.program, "C:\\app\\opencode-cli.exe");
    assert_eq!(cmd.args, args);
    assert_eq!(cmd.mode, InvocationMode::Direct);
}

#[test]
fn wrapped_command_passes_space_and_dollar_unchanged() {
    let args = strings(&["a b", "$HOME", "x;y"]);
    let cmd = create_command("/Apps/My App/opencode-cli", &args, InvocationMode::ShellWrapped, "/bin/zsh");
    assert_eq!(cmd.program, "/bin/zsh");
    assert_eq!(
        cmd.args,
        strings(&["-i", "-l", "-c", "\"/Apps/My App/opencode-cli\" \"$@\"", "--", "a b", "$HOME", "x;y"])
    );
    assert_eq!(cmd.mode, InvocationMode::ShellWrapped);
}

#[test]
fn wrapped_command_without_arguments() {
    let cmd = create_command("/bin/tool", &Vec::new(), InvocationMode::ShellWrapped, "/bin/sh");
    assert_eq!(cmd.args, strings(&["-i", "-l", "-c", "\"/bin/tool\" \"$@\"", "--"]));
}

#[test]
fn config_query_command() {
    let cmd = config_command("/opt/app/opencode-cli", InvocationMode::ShellWrapped, "/bin/bash");
    assert_eq!(cmd.program, "/bin/bash");
    assert_eq!(
        cmd.args,
        strings(&["-i", "-l", "-c", "\"/opt/app/opencode-cli\" \"$@\"", "--", "debug", "config"])
    );
    let direct = config_command("/opt/app/opencode-cli", InvocationMode::Direct, "/bin/bash");
    assert_eq!(direct.program, "/opt/app/opencode-cli");
    assert_eq!(direct.args, strings(&["debug", "config"]));
}

#[test]
fn installer_runs_script_directly() {
    let cmd = installer_command("/tmp/opencode-install.sh", "/opt/app/opencode-cli");
    assert_eq!(cmd.program, "/tmp/opencode-install.sh");
    assert_eq!(cmd.args, strings(&["--binary", "/opt/app/opencode-cli"]));
    assert_eq!(cmd.mode, InvocationMode::Direct);
}

#[test]
fn version_query_runs_binary_directly() {
    let cmd = version_command("/home/u/.opencode/bin/opencode");
    assert_eq!(cmd.program, "/home/u/.opencode/bin/opencode");
    assert_eq!(cmd.args, strings(&["--version"]));
    assert_eq!(cmd.mode, InvocationMode::Direct);
}
