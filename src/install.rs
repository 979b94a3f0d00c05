//! Replacing the standalone copy with the bundled sidecar, through the
//! installer script. The steps that touch the system are done by the
//! caller; `install_cli` decides what comes next after each of them.

use vstd::prelude::*;
use vstd::string::*;
use crate::command::{create_command, command_spec, strings_view, InvocationMode, ShellCommand};
use crate::text::{decode_lossy, utf8_lossy, ProcessOutput};

verus! {

/// The file name the installer script is written under, in the temporary
/// directory.
pub const INSTALL_SCRIPT_NAME: &'static str = "opencode-install.sh";

/// Why an installation failed.
#[derive(Clone, Debug)]
pub enum InstallError {
    /// Installing is supported on Unix-family systems only.
    UnsupportedPlatform,
    /// The bundled sidecar is not where it should be.
    SidecarNotFound,
    /// The script could not be written.
    WriteScript { message: String },
    /// The script could not be made executable.
    SetPermissions { message: String },
    /// The script could not be started.
    RunScript { message: String },
    /// The script exited with failure; what it wrote to standard error.
    ScriptFailed { stderr: String },
    /// The install path is unknown: the home directory is not set.
    NoInstallPath,
}

/// Where an installation stands. Each state but `Done` names the step the
/// caller performs next.
#[derive(Debug)]
pub enum InstallState {
    /// Check the platform and the bundled sidecar.
    Start,
    /// Write the script to the temporary directory.
    WritingScript { sidecar: String },
    /// Make the script executable.
    SettingPermissions { sidecar: String },
    /// Run the script on the sidecar (see `installer_command`).
    RunningScript { sidecar: String },
    /// Remove the script; `result` is how the run went.
    RemovingScript { result: Result<(), InstallError> },
    /// Finished: the install path, or why it failed.
    Done(Result<String, InstallError>),
}

/// What the caller reports of the step it performed.
#[derive(Debug)]
pub enum InstallEvent {
    Begin { unix: bool, sidecar: String, sidecar_exists: bool },
    ScriptWritten(Result<(), String>),
    PermissionsSet(Result<(), String>),
    ScriptRan(Result<ProcessOutput, String>),
    /// The script is gone (or its removal failed, which is no error);
    /// `install_path` is the install path resolved afterwards.
    ScriptRemoved { install_path: Option<String> },
}

/// The script exists on disk in this state.
pub open spec fn script_written(s: InstallState) -> bool {
    s is SettingPermissions || s is RunningScript || s is RemovingScript
}

/// The step that follows `event` in state `s` is `r`.
pub open spec fn install_transition(s: InstallState, event: InstallEvent, r: InstallState) -> bool {
    match (s, event) {
        (InstallState::Start, InstallEvent::Begin { unix, sidecar, sidecar_exists }) => {
            if !unix {
                r == InstallState::Done(Err(InstallError::UnsupportedPlatform))
            } else if !sidecar_exists {
                r == InstallState::Done(Err(InstallError::SidecarNotFound))
            } else {
                r == InstallState::WritingScript { sidecar }
            }
        },
        (InstallState::WritingScript { sidecar }, InstallEvent::ScriptWritten(w)) => match w {
            Ok(_) => r == InstallState::SettingPermissions { sidecar },
            Err(message) => r == InstallState::Done(Err(InstallError::WriteScript { message })),
        },
        (InstallState::SettingPermissions { sidecar }, InstallEvent::PermissionsSet(p)) => match p {
            Ok(_) => r == InstallState::RunningScript { sidecar },
            Err(message) => r == InstallState::RemovingScript {
                result: Err(InstallError::SetPermissions { message }),
            },
        },
        (InstallState::RunningScript { .. }, InstallEvent::ScriptRan(run)) => match run {
            Err(message) => r == InstallState::RemovingScript {
                result: Err(InstallError::RunScript { message }),
            },
            Ok(o) => if o.success {
                r == InstallState::RemovingScript { result: Ok(()) }
            } else {
                match r {
                    InstallState::RemovingScript { result: Err(InstallError::ScriptFailed { stderr }) } =>
                        stderr@ == utf8_lossy(o.stderr@),
                    _ => false,
                }
            },
        },
        (InstallState::RemovingScript { result }, InstallEvent::ScriptRemoved { install_path }) => {
            match result {
                Err(e) => r == InstallState::Done(Err(e)),
                Ok(_) => match install_path {
                    Some(p) => r == InstallState::Done(Ok(p)),
                    None => r == InstallState::Done(Err(InstallError::NoInstallPath)),
                },
            }
        },
        _ => r == s,
    }
}

/// The installer's arguments: `--binary <sidecar>`.
pub open spec fn installer_args(sidecar: Seq<char>) -> Seq<Seq<char>> {
    seq![seq!['-', '-', 'b', 'i', 'n', 'a', 'r', 'y'], sidecar]
}

/// The command that runs the installer script at `script` on the sidecar:
/// started directly, not through a shell.
pub fn installer_command(script: &str, sidecar: &str) -> (r: ShellCommand)
    ensures
        r.mode == InvocationMode::Direct,
        r.program@ == script@,
        r.args_view() == installer_args(sidecar@),
{
    let mut args: Vec<String> = Vec::new();
    args.push(String::from_str("--binary"));
    args.push(String::from_str(sidecar));
    proof {
        reveal_strlit("--binary");
        assert(args@[0]@ =~= installer_args(sidecar@)[0]);
        assert(strings_view(args@) =~= installer_args(sidecar@));
    }
    let r = create_command(script, &args, InvocationMode::Direct, "");
    assert(command_spec(script@, strings_view(args@), InvocationMode::Direct, ""@).1 == strings_view(args@));
    r
}

/// One step of an installation: the state that follows `event` in `state`.
/// An event that does not belong to the state leaves it as it is.
pub fn install_cli(state: InstallState, event: InstallEvent) -> (r: InstallState)
    ensures
        install_transition(state, event, r),
{
    match (state, event) {
        (InstallState::Start, InstallEvent::Begin { unix, sidecar, sidecar_exists }) => {
            if !unix {
                InstallState::Done(Err(InstallError::UnsupportedPlatform))
            } else if !sidecar_exists {
                InstallState::Done(Err(InstallError::SidecarNotFound))
            } else {
                InstallState::WritingScript { sidecar }
            }
        },
        (InstallState::WritingScript { sidecar }, InstallEvent::ScriptWritten(w)) => match w {
            Ok(_) => InstallState::SettingPermissions { sidecar },
            Err(message) => InstallState::Done(Err(InstallError::WriteScript { message })),
        },
        (InstallState::SettingPermissions { sidecar }, InstallEvent::PermissionsSet(p)) => match p {
            Ok(_) => InstallState::RunningScript { sidecar },
            Err(message) => InstallState::RemovingScript {
                result: Err(InstallError::SetPermissions { message }),
            },
        },
        (InstallState::RunningScript { .. }, InstallEvent::ScriptRan(run)) => match run {
            Err(message) => InstallState::RemovingScript {
                result: Err(InstallError::RunScript { message }),
            },
            Ok(o) => {
                if o.success {
                    InstallState::RemovingScript { result: Ok(()) }
                } else {
                    let stderr = decode_lossy(&o.stderr);
                    InstallState::RemovingScript { result: Err(InstallError::ScriptFailed { stderr }) }
                }
            },
        },
        (InstallState::RemovingScript { result }, InstallEvent::ScriptRemoved { install_path }) => {
            match result {
                Err(e) => InstallState::Done(Err(e)),
                Ok(_) => match install_path {
                    Some(p) => InstallState::Done(Ok(p)),
                    None => InstallState::Done(Err(InstallError::NoInstallPath)),
                },
            }
        },
        (s, _) => s,
    }
}

/// Once the script is written, the installation finishes only by way of
/// removing it: every run of the script, failed or not, and every failure
/// after writing leads to its removal first.
pub proof fn lemma_script_removed_before_done(s: InstallState, event: InstallEvent, r: InstallState)
    requires
        install_transition(s, event, r),
        script_written(s),
        !(s is RemovingScript),
    ensures
        !(r is Done),
        script_written(r),
        event is ScriptRan && s is RunningScript ==> r is RemovingScript,
{
}

/// `states` is a run of installation steps: each state follows from the
/// one before by the event between them.
pub open spec fn install_run(states: Seq<InstallState>, events: Seq<InstallEvent>) -> bool {
    &&& states.len() == events.len() + 1
    &&& forall|i: int|
        0 <= i < events.len() ==> install_transition(states[i], events[i], #[trigger] states[i + 1])
}

/// In every run, between the moment the script is on disk and the end of
/// the installation, the script is removed, whether it succeeded or not.
pub proof fn lemma_install_run_removes_script(
    states: Seq<InstallState>,
    events: Seq<InstallEvent>,
    i: int,
    j: int,
)
    requires
        install_run(states, events),
        0 <= i < j < states.len(),
        script_written(states[i]),
        states[j] is Done,
    ensures
        exists|k: int| i <= k < j && (#[trigger] states[k] is RemovingScript),
    decreases j - i,
{
    if states[i] is RemovingScript {
        assert(states[i] is RemovingScript);
    } else {
        assert(install_transition(states[i], events[i], states[i + 1]));
        lemma_script_removed_before_done(states[i], events[i], states[i + 1]);
        lemma_install_run_removes_script(states, events, i + 1, j);
        let k = choose|k: int| i + 1 <= k < j && (#[trigger] states[k] is RemovingScript);
        assert(states[k] is RemovingScript);
    }
}

/// A finished installation stays finished, whatever is reported after.
pub proof fn lemma_install_done_is_final(result: Result<String, InstallError>, event: InstallEvent, r: InstallState)
    requires
        install_transition(InstallState::Done(result), event, r),
    ensures
        r == InstallState::Done(result),
{
}

} // verus!
