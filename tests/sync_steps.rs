use opencode_cli::install::InstallError;
use opencode_cli::sync::{sync_cli, SkipReason, SyncDecision, SyncError, SyncEvent, SyncState};
use opencode_cli::text::ProcessOutput;

fn version_answer(stdout: &str, app: &str) -> SyncEvent {
    SyncEvent::VersionReported {
        output: Ok(ProcessOutput { success: true, stdout: stdout.as_bytes().to_vec(), stderr: Vec::new() }),
        app_version: app.to_string(),
    }
}

fn querying() -> SyncState {
    SyncState::QueryingVersion { cli_path: "/home/u/.opencode/bin/opencode".to_string() }
}

#[test]
fn debug_build_skips() {
    let s = sync_cli(SyncState::Start, SyncEvent::Begin { debug_build: true });
    assert!(matches!(s, SyncState::Done(SyncDecision::Skip(SkipReason::DebugBuild))));
    let s = sync_cli(s, SyncEvent::InstallFinished(Ok("x".to_string())));
    assert!(matches!(s, SyncState::Done(SyncDecision::Skip(SkipReason::DebugBuild))));
}

#[test]
fn release_build_checks_installation() {
    let s = sync_cli(SyncState::Start, SyncEvent::Begin { debug_build: false });
    assert!(matches!(s, SyncState::CheckingInstallation));
}

#[test]
fn not_installed_skips() {
    let s = sync_cli(
        SyncState::CheckingInstallation,
        SyncEvent::InstallationChecked { installed: false, install_path: None },
    );
    assert!(matches!(s, SyncState::Done(SyncDecision::Skip(SkipReason::NotInstalled))));
}

#[test]
fn installed_queries_version() {
    let s = sync_cli(
        SyncState::CheckingInstallation,
        SyncEvent::InstallationChecked { installed: true, install_path: Some("/p/opencode".to_string()) },
    );
    match s {
        SyncState::QueryingVersion { cli_path } => assert_eq!(cli_path, "/p/opencode"),
        other => panic!("unexpected {:?}", other),
    }
}

#[test]
fn installed_without_path_fails() {
    let s = sync_cli(
        SyncState::CheckingInstallation,
        SyncEvent::InstallationChecked { installed: true, install_path: None },
    );
    assert!(matches!(s, SyncState::Failed(SyncError::NoInstallPath)));
}

#[test]
fn older_installed_version_installs() {
    let s = sync_cli(querying(), version_answer("0.9.0\n", "1.0.0"));
    assert!(matches!(s, SyncState::Installing));
}

#[test]
fn garbage_version_fails_without_install() {
    let s = sync_cli(querying(), version_answer("garbage", "1.0.0"));
    match s {
        SyncState::Failed(SyncError::VersionParse { text, .. }) => assert_eq!(text, "garbage"),
        other => panic!("unexpected {:?}", other),
    }
}

#[test]
fn equal_version_is_up_to_date() {
    let s = sync_cli(querying(), version_answer("  1.0.0  \n", "1.0.0"));
    assert!(matches!(s, SyncState::Done(SyncDecision::Skip(SkipReason::UpToDate))));
}

#[test]
fn prerelease_installed_before_release_installs() {
    let s = sync_cli(querying(), version_answer("1.2.0-beta", "1.2.0"));
    assert!(matches!(s, SyncState::Installing));
    let s = sync_cli(querying(), version_answer("1.2.0", "1.2.0-beta"));
    assert!(matches!(s, SyncState::Done(SyncDecision::Skip(SkipReason::UpToDate))));
}

#[test]
fn bad_app_version_fails() {
    let s = sync_cli(querying(), version_answer("1.0.0", "one"));
    match s {
        SyncState::Failed(SyncError::AppVersionParse { text, .. }) => assert_eq!(text, "one"),
        other => panic!("unexpected {:?}", other),
    }
}

#[test]
fn version_query_failures() {
    let s = sync_cli(
        querying(),
        SyncEvent::VersionReported {
            output: Ok(ProcessOutput { success: false, stdout: b"1.0.0".to_vec(), stderr: Vec::new() }),
            app_version: "2.0.0".to_string(),
        },
    );
    assert!(matches!(s, SyncState::Failed(SyncError::VersionFailed)));
    let s = sync_cli(
        querying(),
        SyncEvent::VersionReported { output: Err("not found".to_string()), app_version: "2.0.0".to_string() },
    );
    match s {
        SyncState::Failed(SyncError::VersionSpawn { message }) => assert_eq!(message, "not found"),
        other => panic!("unexpected {:?}", other),
    }
}

#[test]
fn install_outcome_ends_sync() {
    let s = sync_cli(SyncState::Installing, SyncEvent::InstallFinished(Ok("/p".to_string())));
    assert!(matches!(s, SyncState::Done(SyncDecision::Install)));
    let s = sync_cli(SyncState::Installing, SyncEvent::InstallFinished(Err(InstallError::SidecarNotFound)));
    assert!(matches!(s, SyncState::Failed(SyncError::Install(InstallError::SidecarNotFound))));
}

#[test]
fn unrelated_event_leaves_state() {
    let s = sync_cli(SyncState::Start, SyncEvent::InstallFinished(Ok("/p".to_string())));
    assert!(matches!(s, SyncState::Start));
}
