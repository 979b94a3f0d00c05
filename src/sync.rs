//! Keeping the standalone copy of the sidecar at least as new as the
//! application. The steps that touch the system are done by the caller;
//! `sync_cli` decides what comes next after each of them.

use vstd::prelude::*;
use vstd::string::*;
use core::cmp::Ordering;
use crate::command::{create_command, command_spec, strings_view, InvocationMode, ShellCommand};
use crate::install::InstallError;
use crate::text::{decode_lossy, trim_text, trimmed, utf8_lossy, ProcessOutput};
use crate::version::{compare_versions, parse_version, precedence, semver_of, Version};

verus! {

/// Why a sync was skipped.
#[derive(Clone, Copy, Debug, PartialEq, Eq, Structural)]
pub enum SkipReason {
    DebugBuild,
    NotInstalled,
    UpToDate,
}

/// What a sync decided.
#[derive(Clone, Copy, Debug, PartialEq, Eq, Structural)]
pub enum SyncDecision {
    Skip(SkipReason),
    Install,
}

/// Why a sync failed.
#[derive(Debug)]
pub enum SyncError {
    /// The install path is unknown: the home directory is not set.
    NoInstallPath,
    /// The installed binary could not be started.
    VersionSpawn { message: String },
    /// The installed binary exited with failure when asked its version.
    VersionFailed,
    /// The installed binary's answer is not a version.
    VersionParse { text: String, message: String },
    /// The application's own version is not a version.
    AppVersionParse { text: String, message: String },
    /// The installation failed.
    Install(InstallError),
}

/// Where a sync stands. Each state but `Done` and `Failed` names the step the
/// caller performs next.
#[derive(Debug)]
pub enum SyncState {
    /// Report whether this is a debug build.
    Start,
    /// Check for an installed copy and resolve the install path.
    CheckingInstallation,
    /// Ask the installed binary at `cli_path` for its version (see
    /// `version_command`).
    QueryingVersion { cli_path: String },
    /// Run the installation.
    Installing,
    /// Finished: `Install` once the installation succeeded.
    Done(SyncDecision),
    Failed(SyncError),
}

/// What the caller reports of the step it performed.
#[derive(Debug)]
pub enum SyncEvent {
    Begin { debug_build: bool },
    InstallationChecked { installed: bool, install_path: Option<String> },
    /// How the version query went, and the application's own version.
    VersionReported { output: Result<ProcessOutput, String>, app_version: String },
    InstallFinished(Result<String, InstallError>),
}

/// The text of a version answer: standard output, decoded and trimmed.
pub open spec fn version_text(o: ProcessOutput) -> Seq<char> {
    trimmed(utf8_lossy(o.stdout@))
}

/// The step that follows `event` in state `s` is `r`.
pub open spec fn sync_transition(s: SyncState, event: SyncEvent, r: SyncState) -> bool {
    match (s, event) {
        (SyncState::Start, SyncEvent::Begin { debug_build }) => if debug_build {
            r == SyncState::Done(SyncDecision::Skip(SkipReason::DebugBuild))
        } else {
            r == SyncState::CheckingInstallation
        },
        (SyncState::CheckingInstallation, SyncEvent::InstallationChecked { installed, install_path }) => {
            if !installed {
                r == SyncState::Done(SyncDecision::Skip(SkipReason::NotInstalled))
            } else {
                match install_path {
                    Some(p) => r == SyncState::QueryingVersion { cli_path: p },
                    None => r == SyncState::Failed(SyncError::NoInstallPath),
                }
            }
        },
        (SyncState::QueryingVersion { .. }, SyncEvent::VersionReported { output, app_version }) => {
            match output {
                Err(message) => r == SyncState::Failed(SyncError::VersionSpawn { message }),
                Ok(o) => if !o.success {
                    r == SyncState::Failed(SyncError::VersionFailed)
                } else {
                    version_answer_next(version_text(o), app_version@, r)
                },
            }
        },
        (SyncState::Installing, SyncEvent::InstallFinished(res)) => match res {
            Ok(_) => r == SyncState::Done(SyncDecision::Install),
            Err(e) => r == SyncState::Failed(SyncError::Install(e)),
        },
        _ => r == s,
    }
}

/// What follows the installed binary's answer `text`, given the
/// application's version text `app`.
pub open spec fn version_answer_next(text: Seq<char>, app: Seq<char>, r: SyncState) -> bool {
    match (semver_of(text), semver_of(app)) {
        (None, _) => match r {
            SyncState::Failed(SyncError::VersionParse { text: t, .. }) => t@ == text,
            _ => false,
        },
        (Some(_), None) => match r {
            SyncState::Failed(SyncError::AppVersionParse { text: t, .. }) => t@ == app,
            _ => false,
        },
        (Some(a), Some(b)) => if precedence(a, b) == Ordering::Less {
            r == SyncState::Installing
        } else {
            r == SyncState::Done(SyncDecision::Skip(SkipReason::UpToDate))
        },
    }
}

/// The decision on two versions: install exactly where the installed copy
/// comes before the application by precedence; equal versions are up to
/// date.
pub fn decide_versions(installed: &Version, app: &Version) -> (r: SyncDecision)
    requires
        installed.wf(),
        app.wf(),
    ensures
        r == (if precedence(installed.model(), app.model()) == Ordering::Less {
            SyncDecision::Install
        } else {
            SyncDecision::Skip(SkipReason::UpToDate)
        }),
{
    match compare_versions(installed, app) {
        Ordering::Less => SyncDecision::Install,
        _ => SyncDecision::Skip(SkipReason::UpToDate),
    }
}

fn after_version_answer(text: String, app_version: String) -> (r: SyncState)
    ensures
        version_answer_next(text@, app_version@, r),
{
    match parse_version(text.as_str()) {
        Err(message) => SyncState::Failed(SyncError::VersionParse { text, message }),
        Ok(installed) => match parse_version(app_version.as_str()) {
            Err(message) => SyncState::Failed(SyncError::AppVersionParse { text: app_version, message }),
            Ok(app) => match decide_versions(&installed, &app) {
                SyncDecision::Install => SyncState::Installing,
                _ => SyncState::Done(SyncDecision::Skip(SkipReason::UpToDate)),
            },
        },
    }
}

/// One step of a sync: the state that follows `event` in `state`. An event
/// that does not belong to the state leaves it as it is.
pub fn sync_cli(state: SyncState, event: SyncEvent) -> (r: SyncState)
    ensures
        sync_transition(state, event, r),
{
    match (state, event) {
        (SyncState::Start, SyncEvent::Begin { debug_build }) => {
            if debug_build {
                SyncState::Done(SyncDecision::Skip(SkipReason::DebugBuild))
            } else {
                SyncState::CheckingInstallation
            }
        },
        (SyncState::CheckingInstallation, SyncEvent::InstallationChecked { installed, install_path }) => {
            if !installed {
                SyncState::Done(SyncDecision::Skip(SkipReason::NotInstalled))
            } else {
                match install_path {
                    Some(p) => SyncState::QueryingVersion { cli_path: p },
                    None => SyncState::Failed(SyncError::NoInstallPath),
                }
            }
        },
        (SyncState::QueryingVersion { .. }, SyncEvent::VersionReported { output, app_version }) => {
            match output {
                Err(message) => SyncState::Failed(SyncError::VersionSpawn { message }),
                Ok(o) => {
                    if !o.success {
                        SyncState::Failed(SyncError::VersionFailed)
                    } else {
                        let raw = decode_lossy(&o.stdout);
                        let text = trim_text(raw.as_str());
                        after_version_answer(text, app_version)
                    }
                },
            }
        },
        (SyncState::Installing, SyncEvent::InstallFinished(res)) => match res {
            Ok(_) => SyncState::Done(SyncDecision::Install),
            Err(e) => SyncState::Failed(SyncError::Install(e)),
        },
        (s, _) => s,
    }
}

/// `states` is a run of syncs: each state follows from the one before by
/// the event between them.
pub open spec fn sync_run(states: Seq<SyncState>, events: Seq<SyncEvent>) -> bool {
    &&& states.len() == events.len() + 1
    &&& forall|i: int|
        0 <= i < events.len() ==> sync_transition(states[i], #[trigger] events[i], states[i + 1])
}

/// On versions that both parse, a sync goes on to install exactly where the
/// installed version comes before the application's by precedence.
pub proof fn lemma_install_iff_older(
    cli_path: String,
    o: ProcessOutput,
    app_version: String,
    r: SyncState,
)
    requires
        o.success,
        semver_of(version_text(o)) is Some,
        semver_of(app_version@) is Some,
        sync_transition(
            SyncState::QueryingVersion { cli_path },
            SyncEvent::VersionReported { output: Ok(o), app_version },
            r,
        ),
    ensures
        (r is Installing) <==> precedence(
            semver_of(version_text(o))->0,
            semver_of(app_version@)->0,
        ) == Ordering::Less,
        !(r is Installing) ==> r == SyncState::Done(SyncDecision::Skip(SkipReason::UpToDate)),
{
}

proof fn lemma_done_stays(states: Seq<SyncState>, events: Seq<SyncEvent>, d: SyncDecision, i: int)
    requires
        sync_run(states, events),
        states[0] == SyncState::Done(d),
        0 <= i < states.len(),
    ensures
        states[i] == SyncState::Done(d),
    decreases i,
{
    if i > 0 {
        lemma_done_stays(states, events, d, i - 1);
        assert(sync_transition(states[i - 1], events[i - 1], states[i]));
    }
}

/// A finished sync stays finished: no later event leads it anywhere.
pub proof fn lemma_sync_done_is_final(states: Seq<SyncState>, events: Seq<SyncEvent>, d: SyncDecision)
    requires
        sync_run(states, events),
        states[0] == SyncState::Done(d),
    ensures
        forall|i: int| 0 <= i < states.len() ==> states[i] == SyncState::Done(d),
{
    assert forall|i: int| 0 <= i < states.len() implies states[i] == SyncState::Done(d) by {
        lemma_done_stays(states, events, d, i);
    }
}

/// A sync never installs in a debug build, nor where no copy is installed:
/// in a run that begins with either report, no state is `Installing`.
pub proof fn lemma_no_install_when_debug_or_absent(states: Seq<SyncState>, events: Seq<SyncEvent>)
    requires
        sync_run(states, events),
        events.len() > 0,
        (states[0] is Start && events[0] is Begin && events[0]->debug_build)
            || (states[0] is CheckingInstallation && events[0] is InstallationChecked
            && !events[0]->installed),
    ensures
        forall|i: int| 0 <= i < states.len() ==> !(#[trigger] states[i] is Installing),
        states[1] == SyncState::Done(SyncDecision::Skip(
            if states[0] is Start { SkipReason::DebugBuild } else { SkipReason::NotInstalled },
        )),
{
    assert(sync_transition(states[0], events[0], states[1]));
    let d = states[1]->Done_0;
    let rest = states.drop_first();
    let later = events.drop_first();
    assert forall|i: int| 0 <= i < later.len() implies sync_transition(rest[i], #[trigger] later[i], rest[i + 1]) by {
        assert(sync_transition(states[i + 1], events[i + 1], states[i + 2]));
    }
    lemma_sync_done_is_final(rest, later, d);
    assert forall|i: int| 0 <= i < states.len() implies !(#[trigger] states[i] is Installing) by {
        if i > 0 {
            assert(rest[i - 1] == SyncState::Done(d));
        }
    }
}

/// The arguments that ask the installed binary for its version.
pub open spec fn version_query() -> Seq<Seq<char>> {
    seq![seq!['-', '-', 'v', 'e', 'r', 's', 'i', 'o', 'n']]
}

/// The command that asks the installed binary at `cli_path` for its
/// version: started directly.
pub fn version_command(cli_path: &str) -> (r: ShellCommand)
    ensures
        r.mode == InvocationMode::Direct,
        r.program@ == cli_path@,
        r.args_view() == version_query(),
{
    let mut args: Vec<String> = Vec::new();
    args.push(String::from_str("--version"));
    proof {
        reveal_strlit("--version");
        assert(args@[0]@ =~= version_query()[0]);
        assert(strings_view(args@) =~= version_query());
    }
    let r = create_command(cli_path, &args, InvocationMode::Direct, "");
    assert(command_spec(cli_path@, strings_view(args@), InvocationMode::Direct, ""@).1 == strings_view(args@));
    r
}

} // verus!
