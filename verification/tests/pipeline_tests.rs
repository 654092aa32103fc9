use upmc::errors::{UpdateError, UpdateErrorKind};
use upmc::selfupdate::SelfUpdateResult;
use upmc::update::{
    pipeline_step, PipelineAction, PipelineCmd, PipelineEvent, PipelineState, PipelineStep,
    UpdateResult,
};
use upmc::version::{version_tag_for, Downloads, LocalVersion, RemoteVersion};

fn remote(mc: &str, fabric: &str) -> RemoteVersion {
    RemoteVersion {
        mc_version: mc.to_string(),
        fabric_version: fabric.to_string(),
        version_tag: version_tag_for(mc, fabric),
        pack_url: "https://example.invalid/pack.toml".to_string(),
        downloads: Downloads::none(),
    }
}

fn local(mc: &str, fabric: &str) -> LocalVersion {
    LocalVersion {
        mc_version: mc.to_string(),
        fabric_version: fabric.to_string(),
        version_tag: version_tag_for(mc, fabric),
    }
}

fn net_error() -> UpdateError {
    UpdateError::new(UpdateErrorKind::NetworkUnavailable, "no route".to_string())
}

/// Drive the pipeline to the stage right after the local state was read.
fn advance_to_local_read(rv: RemoteVersion, lv: LocalVersion) -> PipelineStep {
    let s = pipeline_step(PipelineState::Start, PipelineEvent::Begin);
    assert!(matches!(s.cmd, PipelineCmd::Do(PipelineAction::FetchRemote)));
    let s = pipeline_step(s.state, PipelineEvent::RemoteFetched(rv));
    assert!(matches!(s.cmd, PipelineCmd::Do(PipelineAction::CheckSelfUpdate)));
    let s = pipeline_step(s.state, PipelineEvent::SelfUpdateChecked(SelfUpdateResult::UpToDate));
    assert!(matches!(s.cmd, PipelineCmd::Do(PipelineAction::ProbeComponents)));
    let s = pipeline_step(s.state, PipelineEvent::ComponentsProbed { needs_bootstrap: false });
    assert!(matches!(s.cmd, PipelineCmd::Do(PipelineAction::ReadLocal)));
    pipeline_step(s.state, PipelineEvent::LocalRead(lv))
}

#[test]
fn upgrade_runs_install_cleanup_and_persists_the_new_state() {
    // local {mc: 1.21.4}, remote {mc: 1.21.11}: the full upgrade stage runs
    let s = advance_to_local_read(remote("1.21.11", "0.18.4"), local("1.21.4", "0.18.4"));
    match &s.cmd {
        PipelineCmd::Do(PipelineAction::InstallComponents { mc_version, fabric_version }) => {
            assert_eq!(mc_version, "1.21.11");
            assert_eq!(fabric_version, "0.18.4");
        }
        _ => panic!("expected the component install"),
    }
    let s = pipeline_step(s.state, PipelineEvent::StepDone);
    match &s.cmd {
        PipelineCmd::Do(PipelineAction::CleanupVersions { keep_tag }) => {
            assert_eq!(keep_tag, "fabric-loader-0.18.4-1.21.11");
        }
        _ => panic!("expected the version cleanup"),
    }
    let s = pipeline_step(s.state, PipelineEvent::StepDone);
    assert!(matches!(s.cmd, PipelineCmd::Do(PipelineAction::CleanMods)));
    let s = pipeline_step(s.state, PipelineEvent::StepDone);
    match &s.cmd {
        PipelineCmd::Do(PipelineAction::SaveLocal { version }) => {
            assert_eq!(version.mc_version, "1.21.11");
            assert_eq!(version.fabric_version, "0.18.4");
            assert_eq!(version.version_tag, "fabric-loader-0.18.4-1.21.11");
        }
        _ => panic!("expected the state persist"),
    }
    // the idempotent tail runs and the run succeeds
    let s = pipeline_step(s.state, PipelineEvent::StepDone);
    assert!(matches!(s.cmd, PipelineCmd::Do(PipelineAction::EnsureVanilla { .. })));
    let s = pipeline_step(s.state, PipelineEvent::StepDone);
    assert!(matches!(s.cmd, PipelineCmd::Do(PipelineAction::FixIsolation { .. })));
    let s = pipeline_step(s.state, PipelineEvent::StepDone);
    match &s.cmd {
        PipelineCmd::Do(PipelineAction::SyncContent { pack_url }) => {
            assert_eq!(pack_url, "https://example.invalid/pack.toml");
        }
        _ => panic!("expected the content sync"),
    }
    let s = pipeline_step(s.state, PipelineEvent::StepDone);
    assert!(matches!(s.cmd, PipelineCmd::Finish(UpdateResult::Success)));
    assert_eq!(s.progress.last().map(|p| p.percent), Some(100));
}

#[test]
fn identical_state_skips_the_whole_install_stage() {
    // a second run with the same remote state performs no component install
    let s = advance_to_local_read(remote("1.21.11", "0.18.4"), local("1.21.11", "0.18.4"));
    match &s.cmd {
        PipelineCmd::Do(PipelineAction::EnsureVanilla { mc_version }) => {
            assert_eq!(mc_version, "1.21.11");
        }
        _ => panic!("expected the skip straight to the idempotent tail"),
    }
}

#[test]
fn offline_when_bootstrapped_and_fatal_on_first_run() {
    let s = pipeline_step(PipelineState::Start, PipelineEvent::Begin);
    let s = pipeline_step(
        s.state,
        PipelineEvent::RemoteFetchFailed { bootstrapped: true, error: net_error() },
    );
    assert!(matches!(s.cmd, PipelineCmd::Finish(UpdateResult::Offline)));
    assert_eq!(s.progress[0].percent, 100);

    let s = pipeline_step(PipelineState::Start, PipelineEvent::Begin);
    let s = pipeline_step(
        s.state,
        PipelineEvent::RemoteFetchFailed { bootstrapped: false, error: net_error() },
    );
    match s.cmd {
        PipelineCmd::Fail(e) => assert!(matches!(e.kind, UpdateErrorKind::NetworkUnavailable)),
        _ => panic!("a first run without network is fatal"),
    }
}

#[test]
fn malformed_remote_data_is_fatal_even_when_bootstrapped() {
    // only a network failure recovers to offline; a manifest that parsed
    // wrongly aborts the run outright
    let s = pipeline_step(PipelineState::Start, PipelineEvent::Begin);
    let bad = UpdateError::new(UpdateErrorKind::RemoteDataMalformed, "bad manifest".to_string());
    let s = pipeline_step(
        s.state,
        PipelineEvent::RemoteFetchFailed { bootstrapped: true, error: bad },
    );
    match s.cmd {
        PipelineCmd::Fail(e) => assert!(matches!(e.kind, UpdateErrorKind::RemoteDataMalformed)),
        _ => panic!("malformed remote data must abort"),
    }
}

#[test]
fn self_update_restart_short_circuits_the_run() {
    let s = pipeline_step(PipelineState::Start, PipelineEvent::Begin);
    let s = pipeline_step(s.state, PipelineEvent::RemoteFetched(remote("1.21.4", "0.16.9")));
    let s = pipeline_step(s.state, PipelineEvent::SelfUpdateChecked(SelfUpdateResult::Restarting));
    assert!(matches!(s.cmd, PipelineCmd::Finish(UpdateResult::SelfUpdateRestarting)));
}

#[test]
fn self_update_failure_never_aborts() {
    let s = pipeline_step(PipelineState::Start, PipelineEvent::Begin);
    let s = pipeline_step(s.state, PipelineEvent::RemoteFetched(remote("1.21.4", "0.16.9")));
    let e = UpdateError::new(UpdateErrorKind::SelfUpdateFailed, "timeout".to_string());
    let s = pipeline_step(s.state, PipelineEvent::SelfUpdateFailed(e));
    assert!(matches!(s.cmd, PipelineCmd::Do(PipelineAction::ProbeComponents)));
}

#[test]
fn bootstrap_runs_before_the_version_check_on_first_run() {
    let s = pipeline_step(PipelineState::Start, PipelineEvent::Begin);
    let s = pipeline_step(s.state, PipelineEvent::RemoteFetched(remote("1.21.4", "0.16.9")));
    let s = pipeline_step(s.state, PipelineEvent::SelfUpdateChecked(SelfUpdateResult::UpToDate));
    let s = pipeline_step(s.state, PipelineEvent::ComponentsProbed { needs_bootstrap: true });
    assert!(matches!(s.cmd, PipelineCmd::Do(PipelineAction::RunBootstrap)));
    let s = pipeline_step(s.state, PipelineEvent::StepDone);
    assert!(matches!(s.cmd, PipelineCmd::Do(PipelineAction::ReadLocal)));
}

#[test]
fn a_failed_stage_aborts_with_the_error_kind_preserved() {
    let s = advance_to_local_read(remote("1.21.11", "0.18.4"), local("1.21.4", "0.18.4"));
    let e = UpdateError::new(UpdateErrorKind::ExternalProcessFailed, "exit 1".to_string());
    let s = pipeline_step(s.state, PipelineEvent::StepFailed(e));
    match s.cmd {
        PipelineCmd::Fail(e) => assert!(matches!(e.kind, UpdateErrorKind::ExternalProcessFailed)),
        _ => panic!("a failed install stage must abort"),
    }
    assert!(matches!(s.state, PipelineState::Failed));
}
