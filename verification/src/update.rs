//! The update orchestrator: a linear staged pipeline, expressed as a state
//! machine from stage and event to next stage, progress to report, and the
//! one outside action to perform next.
//!
//! The surrounding binary owns the loop: it performs each commanded action
//! (network, files, processes) and feeds the outcome back as the next
//! event. Every decision — what runs, in which order, what is skipped,
//! which failures abort and which are swallowed — is made and proved here.

use vstd::prelude::*;
use vstd::string::StrSliceExecFns;

use crate::errors::{UpdateError, UpdateErrorKind};
use crate::selfupdate::SelfUpdateResult;
use crate::text::{spec_u64_str, u64_to_string};
use crate::version::{spec_needs_upgrade, LocalVersion, RemoteVersion};

verus! {

/// One progress report: a percentage and a message for the user.
#[derive(Debug, Clone)]
pub struct Progress {
    pub percent: u32,
    pub message: String,
}

impl Progress {
    /// A progress report; the percentage is capped at 100.
    pub fn new(percent: u32, message: &str) -> (r: Progress)
        ensures
            r.percent == (if percent <= 100 {
                percent
            } else {
                100u32
            }),
            r.message@ == message@,
    {
        let capped = if percent <= 100 {
            percent
        } else {
            100
        };
        Progress { percent: capped, message: message.to_owned() }
    }
}

/// The terminal outcome of one orchestration run.
#[derive(Debug)]
pub enum UpdateResult {
    /// Everything is in sync; the launcher may start.
    Success,
    /// The network is unreachable but the installation is usable; the
    /// launcher may start with what is installed.
    Offline,
    /// The updater replaced itself; the process must exit at once and
    /// nothing may be launched.
    SelfUpdateRestarting,
}

/// What the presentation layer is told when the run ends.
#[derive(Debug)]
pub enum FinishState {
    Success,
    SelfUpdateRestarting,
    /// A required prerequisite is missing and needs a guided install.
    ComponentRuntimeMissing,
    /// Any other fatal error, with its full causal message.
    Error(String),
}

/// The one value shared between the worker and the presentation layer: the
/// latest progress, the full log, and the terminal outcome. The outcome is
/// consumed exactly once through `take_finish`, so repeated notifications
/// can never replay terminal handling.
#[derive(Debug)]
pub struct ProgressLog {
    pub current: Progress,
    pub log: Vec<String>,
    pub finish: Option<FinishState>,
}

impl ProgressLog {
    /// Whether a terminal outcome is waiting to be consumed.
    pub open spec fn has_finish(&self) -> bool {
        self.finish is Some
    }

    /// The waiting terminal outcome.
    pub open spec fn spec_finish(&self) -> Option<FinishState> {
        self.finish
    }

    pub fn new() -> (r: ProgressLog)
        ensures
            r.current.percent == 0,
            r.log@.len() == 0,
            !r.has_finish(),
    {
        ProgressLog {
            current: Progress { percent: 0, message: String::new() },
            log: Vec::new(),
            finish: None,
        }
    }

    /// Record a progress report: it becomes current and is appended to the
    /// log as `[<percent>%] <message>`; a waiting outcome is untouched.
    pub fn report(&mut self, p: Progress)
        ensures
            final(self).current == p,
            final(self).log@.len() == old(self).log@.len() + 1,
            forall|i: int|
                0 <= i < old(self).log@.len() ==> final(self).log@[i] == old(self).log@[i],
            final(self).log@[old(self).log@.len() as int]@ == "["@ + spec_u64_str(
                p.percent as nat,
            ) + "%] "@ + p.message@,
            final(self).spec_finish() == old(self).spec_finish(),
    {
        let mut entry = String::from_str("[");
        let pct = u64_to_string(p.percent as u64);
        entry.append(pct.as_str());
        entry.append("%] ");
        entry.append(p.message.as_str());
        self.log.push(entry);
        self.current = p;
    }

    /// Post the terminal outcome.
    pub fn set_finish(&mut self, f: FinishState)
        ensures
            final(self).spec_finish() == Some(f),
            final(self).current == old(self).current,
            final(self).log@ == old(self).log@,
    {
        self.finish = Some(f);
    }

    /// Consume the terminal outcome: after the call none is waiting, so a
    /// second take yields `None`.
    pub fn take_finish(&mut self) -> (r: Option<FinishState>)
        ensures
            r == old(self).spec_finish(),
            !final(self).has_finish(),
            final(self).current == old(self).current,
            final(self).log@ == old(self).log@,
    {
        let r = match &self.finish {
            Some(f) => {
                let taken = match f {
                    FinishState::Success => FinishState::Success,
                    FinishState::SelfUpdateRestarting => FinishState::SelfUpdateRestarting,
                    FinishState::ComponentRuntimeMissing => FinishState::ComponentRuntimeMissing,
                    FinishState::Error(s) => FinishState::Error(s.clone()),
                };
                Some(taken)
            },
            None => None,
        };
        self.finish = None;
        r
    }
}

/// Percentage shown inside a download band `start..=end` after
/// `downloaded` of `total` bytes, scaled linearly and capped at the band's
/// end.
pub fn download_percent(start: u32, end: u32, downloaded: u64, total: u64) -> (r: u32)
    requires
        start <= end <= 100,
        total > 0,
    ensures
        r as int == (if start + (downloaded * (end - start)) / (total as int) <= end {
            start + (downloaded * (end - start)) / (total as int)
        } else {
            end as int
        }),
{
    let span = (end - start) as u128;
    proof {
        assert(downloaded as u128 * span <= u128::MAX && downloaded as u128 * span == downloaded
            * (end - start)) by (nonlinear_arith)
            requires
                span == end - start,
                span <= 100,
                downloaded <= u64::MAX,
        ;
    }
    let scaled = (downloaded as u128 * span) / (total as u128);
    if scaled <= (end - start) as u128 {
        let add = scaled as u32;
        start + add
    } else {
        end
    }
}

/// The stage the pipeline is in. Stages that follow a successful remote
/// fetch carry the immutable remote target state of this run.
#[derive(Debug)]
pub enum PipelineState {
    Start,
    FetchingRemote,
    CheckingSelfUpdate { remote: RemoteVersion },
    ProbingComponents { remote: RemoteVersion },
    Bootstrapping { remote: RemoteVersion },
    ReadingLocal { remote: RemoteVersion },
    InstallingComponents { remote: RemoteVersion },
    CleaningVersions { remote: RemoteVersion },
    CleaningMods { remote: RemoteVersion },
    SavingLocal { remote: RemoteVersion },
    EnsuringVanilla { remote: RemoteVersion },
    FixingIsolation { remote: RemoteVersion },
    Syncing { remote: RemoteVersion },
    Finished(UpdateResult),
    Failed,
}

/// What the surrounding binary reports back to the pipeline.
#[derive(Debug)]
pub enum PipelineEvent {
    /// The run begins.
    Begin,
    /// The remote target state was assembled.
    RemoteFetched(RemoteVersion),
    /// The remote target state could not be fetched; `bootstrapped` says
    /// whether the installation already has its core components.
    RemoteFetchFailed { bootstrapped: bool, error: UpdateError },
    /// The self-update stage finished with this outcome.
    SelfUpdateChecked(SelfUpdateResult),
    /// The self-update stage failed; the pipeline continues regardless.
    SelfUpdateFailed(UpdateError),
    /// Whether first-run bootstrap is required.
    ComponentsProbed { needs_bootstrap: bool },
    /// The local version record was read.
    LocalRead(LocalVersion),
    /// The commanded action finished successfully.
    StepDone,
    /// The commanded action failed.
    StepFailed(UpdateError),
}

/// The one outside action the surrounding binary must perform next.
#[derive(Debug)]
pub enum PipelineAction {
    /// Fetch the remote manifest and content index.
    FetchRemote,
    /// Run the self-update check for the active channel.
    CheckSelfUpdate,
    /// Probe which components are present on disk.
    ProbeComponents,
    /// Run the first-run bootstrap with the download locations of the
    /// fetched remote state (readable from the `Bootstrapping` stage).
    RunBootstrap,
    /// Read the local version record.
    ReadLocal,
    /// Run the component installer for these versions.
    InstallComponents { mc_version: String, fabric_version: String },
    /// Delete every version folder except this one.
    CleanupVersions { keep_tag: String },
    /// Delete the superseded mod files.
    CleanMods,
    /// Persist this local version record; only after every prior upgrade
    /// step succeeded.
    SaveLocal { version: LocalVersion },
    /// Make sure the vanilla client for this version is present.
    EnsureVanilla { mc_version: String },
    /// Correct the version-isolation setting for this version folder.
    FixIsolation { version_tag: String },
    /// Run the content-sync tool against this content index.
    SyncContent { pack_url: String },
}

/// What the pipeline tells the surrounding binary after each step.
#[derive(Debug)]
pub enum PipelineCmd {
    /// Perform this action and report back.
    Do(PipelineAction),
    /// The run ended with this outcome.
    Finish(UpdateResult),
    /// The run failed; surface this error.
    Fail(UpdateError),
}

/// One advance of the pipeline: the next stage, the progress to report (in
/// order), and the command.
#[derive(Debug)]
pub struct PipelineStep {
    pub state: PipelineState,
    pub progress: Vec<Progress>,
    pub cmd: PipelineCmd,
}

/// The events each stage can receive.
pub open spec fn pipeline_expects(s: PipelineState, e: PipelineEvent) -> bool {
    match (s, e) {
        (PipelineState::Start, PipelineEvent::Begin) => true,
        (PipelineState::FetchingRemote, PipelineEvent::RemoteFetched(_)) => true,
        (PipelineState::FetchingRemote, PipelineEvent::RemoteFetchFailed { .. }) => true,
        (PipelineState::CheckingSelfUpdate { .. }, PipelineEvent::SelfUpdateChecked(_)) => true,
        (PipelineState::CheckingSelfUpdate { .. }, PipelineEvent::SelfUpdateFailed(_)) => true,
        (PipelineState::ProbingComponents { .. }, PipelineEvent::ComponentsProbed { .. }) => true,
        (PipelineState::Bootstrapping { .. }, PipelineEvent::StepDone) => true,
        (PipelineState::Bootstrapping { .. }, PipelineEvent::StepFailed(_)) => true,
        (PipelineState::ReadingLocal { .. }, PipelineEvent::LocalRead(_)) => true,
        (PipelineState::InstallingComponents { .. }, PipelineEvent::StepDone) => true,
        (PipelineState::InstallingComponents { .. }, PipelineEvent::StepFailed(_)) => true,
        (PipelineState::CleaningVersions { .. }, PipelineEvent::StepDone) => true,
        (PipelineState::CleaningVersions { .. }, PipelineEvent::StepFailed(_)) => true,
        (PipelineState::CleaningMods { .. }, PipelineEvent::StepDone) => true,
        (PipelineState::CleaningMods { .. }, PipelineEvent::StepFailed(_)) => true,
        (PipelineState::SavingLocal { .. }, PipelineEvent::StepDone) => true,
        (PipelineState::SavingLocal { .. }, PipelineEvent::StepFailed(_)) => true,
        (PipelineState::EnsuringVanilla { .. }, PipelineEvent::StepDone) => true,
        (PipelineState::EnsuringVanilla { .. }, PipelineEvent::StepFailed(_)) => true,
        (PipelineState::FixingIsolation { .. }, PipelineEvent::StepDone) => true,
        (PipelineState::FixingIsolation { .. }, PipelineEvent::StepFailed(_)) => true,
        (PipelineState::Syncing { .. }, PipelineEvent::StepDone) => true,
        (PipelineState::Syncing { .. }, PipelineEvent::StepFailed(_)) => true,
        _ => false,
    }
}

/// Everything one pipeline advance promises, stage by stage.
pub open spec fn pipeline_step_post(s: PipelineState, e: PipelineEvent, r: PipelineStep) -> bool {
    match (s, e) {
        // the run opens by fetching the remote target state
        (PipelineState::Start, PipelineEvent::Begin) => {
            &&& r.state is FetchingRemote
            &&& r.cmd matches PipelineCmd::Do(PipelineAction::FetchRemote)
            &&& r.progress@.len() == 1
            &&& r.progress@[0].percent == 1
        },
        // a fetched remote state flows unchanged into the self-update stage
        (PipelineState::FetchingRemote, PipelineEvent::RemoteFetched(remote)) => {
            &&& r.state matches PipelineState::CheckingSelfUpdate { remote: r2 } && r2 == remote
            &&& r.cmd matches PipelineCmd::Do(PipelineAction::CheckSelfUpdate)
            &&& r.progress@.len() == 0
        },
        // an installed system goes offline only when the network is the
        // problem; malformed remote data and a first run are fatal
        (PipelineState::FetchingRemote, PipelineEvent::RemoteFetchFailed { bootstrapped, error }) => {
            if bootstrapped && error.kind == UpdateErrorKind::NetworkUnavailable {
                &&& r.state matches PipelineState::Finished(UpdateResult::Offline)
                &&& r.cmd matches PipelineCmd::Finish(UpdateResult::Offline)
                &&& r.progress@.len() == 1
                &&& r.progress@[0].percent == 100
                &&& r.progress@[0].message@ == "离线模式 — 跳过更新"@
            } else {
                &&& r.state is Failed
                &&& (r.cmd matches PipelineCmd::Fail(e2) && e2.kind == error.kind)
                &&& r.progress@.len() == 0
            }
        },
        // a staged replacement ends the run; the process must exit
        (PipelineState::CheckingSelfUpdate { remote }, PipelineEvent::SelfUpdateChecked(out)) => {
            match out {
                SelfUpdateResult::Restarting => {
                    &&& r.state matches PipelineState::Finished(UpdateResult::SelfUpdateRestarting)
                    &&& r.cmd matches PipelineCmd::Finish(UpdateResult::SelfUpdateRestarting)
                },
                SelfUpdateResult::UpToDate => {
                    &&& r.state matches PipelineState::ProbingComponents { remote: r2 } && r2
                        == remote
                    &&& r.cmd matches PipelineCmd::Do(PipelineAction::ProbeComponents)
                },
            }
        },
        // a self-update failure never aborts the pipeline
        (PipelineState::CheckingSelfUpdate { remote }, PipelineEvent::SelfUpdateFailed(_)) => {
            &&& r.state matches PipelineState::ProbingComponents { remote: r2 } && r2 == remote
            &&& r.cmd matches PipelineCmd::Do(PipelineAction::ProbeComponents)
        },
        (PipelineState::ProbingComponents { remote }, PipelineEvent::ComponentsProbed {
            needs_bootstrap,
        }) => {
            if needs_bootstrap {
                &&& r.state matches PipelineState::Bootstrapping { remote: r2 } && r2 == remote
                &&& r.cmd matches PipelineCmd::Do(PipelineAction::RunBootstrap)
                &&& r.progress@.len() == 1
                &&& r.progress@[0].percent == 2
            } else {
                &&& r.state matches PipelineState::ReadingLocal { remote: r2 } && r2 == remote
                &&& r.cmd matches PipelineCmd::Do(PipelineAction::ReadLocal)
                &&& r.progress@.len() == 1
                &&& r.progress@[0].percent == 50
            }
        },
        (PipelineState::Bootstrapping { remote }, PipelineEvent::StepDone) => {
            &&& r.state matches PipelineState::ReadingLocal { remote: r2 } && r2 == remote
            &&& r.cmd matches PipelineCmd::Do(PipelineAction::ReadLocal)
            &&& r.progress@.len() == 1
            &&& r.progress@[0].percent == 50
            &&& r.progress@[0].message@ == "首次安装完成"@
        },
        // the one branching decision: the upgrade stage runs exactly when a
        // tracked tag differs, and is skipped entirely otherwise
        (PipelineState::ReadingLocal { remote }, PipelineEvent::LocalRead(local)) => {
            if spec_needs_upgrade(&remote, &local) {
                &&& r.state matches PipelineState::InstallingComponents { remote: r2 } && r2
                    == remote
                &&& (r.cmd matches PipelineCmd::Do(PipelineAction::InstallComponents {
                    mc_version,
                    fabric_version,
                }) && mc_version@ == remote.mc_version@ && fabric_version@
                    == remote.fabric_version@)
                &&& r.progress@.len() == 3
                &&& r.progress@[0].percent == 55
                &&& r.progress@[1].percent == 58
                &&& r.progress@[2].percent == 60
            } else {
                &&& r.state matches PipelineState::EnsuringVanilla { remote: r2 } && r2 == remote
                &&& (r.cmd matches PipelineCmd::Do(PipelineAction::EnsureVanilla { mc_version })
                    && mc_version@ == remote.mc_version@)
                &&& r.progress@.len() == 3
                &&& r.progress@[0].percent == 55
                &&& r.progress@[1].percent == 78
                &&& r.progress@[1].message@ == "版本已是最新"@
                &&& r.progress@[2].percent == 79
            }
        },
        (PipelineState::InstallingComponents { remote }, PipelineEvent::StepDone) => {
            &&& r.state matches PipelineState::CleaningVersions { remote: r2 } && r2 == remote
            &&& (r.cmd matches PipelineCmd::Do(PipelineAction::CleanupVersions { keep_tag })
                && keep_tag@ == remote.version_tag@)
            &&& r.progress@.len() == 1
            &&& r.progress@[0].percent == 70
        },
        (PipelineState::CleaningVersions { remote }, PipelineEvent::StepDone) => {
            &&& r.state matches PipelineState::CleaningMods { remote: r2 } && r2 == remote
            &&& r.cmd matches PipelineCmd::Do(PipelineAction::CleanMods)
            &&& r.progress@.len() == 1
            &&& r.progress@[0].percent == 75
        },
        // persistence comes only after installer, version cleanup and mod
        // cleanup all succeeded, and records exactly the remote tags
        (PipelineState::CleaningMods { remote }, PipelineEvent::StepDone) => {
            &&& r.state matches PipelineState::SavingLocal { remote: r2 } && r2 == remote
            &&& (r.cmd matches PipelineCmd::Do(PipelineAction::SaveLocal { version })
                && version.mc_version@ == remote.mc_version@ && version.fabric_version@
                == remote.fabric_version@ && version.version_tag@ == remote.version_tag@)
            &&& r.progress@.len() == 0
        },
        (PipelineState::SavingLocal { remote }, PipelineEvent::StepDone) => {
            &&& r.state matches PipelineState::EnsuringVanilla { remote: r2 } && r2 == remote
            &&& (r.cmd matches PipelineCmd::Do(PipelineAction::EnsureVanilla { mc_version })
                && mc_version@ == remote.mc_version@)
            &&& r.progress@.len() == 2
            &&& r.progress@[0].percent == 78
            &&& r.progress@[0].message@ == "版本升级完成"@
            &&& r.progress@[1].percent == 79
        },
        (PipelineState::EnsuringVanilla { remote }, PipelineEvent::StepDone) => {
            &&& r.state matches PipelineState::FixingIsolation { remote: r2 } && r2 == remote
            &&& (r.cmd matches PipelineCmd::Do(PipelineAction::FixIsolation { version_tag })
                && version_tag@ == remote.version_tag@)
            &&& r.progress@.len() == 1
            &&& r.progress@[0].percent == 79
        },
        // the sync stage uses the content-index location the remote state
        // declared
        (PipelineState::FixingIsolation { remote }, PipelineEvent::StepDone) => {
            &&& r.state matches PipelineState::Syncing { remote: r2 } && r2 == remote
            &&& (r.cmd matches PipelineCmd::Do(PipelineAction::SyncContent { pack_url })
                && pack_url@ == remote.pack_url@)
            &&& r.progress@.len() == 1
            &&& r.progress@[0].percent == 80
        },
        (PipelineState::Syncing { remote }, PipelineEvent::StepDone) => {
            &&& r.state matches PipelineState::Finished(UpdateResult::Success)
            &&& r.cmd matches PipelineCmd::Finish(UpdateResult::Success)
            &&& r.progress@.len() == 2
            &&& r.progress@[0].percent == 95
            &&& r.progress@[1].percent == 100
            &&& r.progress@[1].message@ == "更新完成，正在启动游戏..."@
        },
        // any stage failure outside the self-update stage aborts the run,
        // preserving the error's taxonomy kind
        (_, PipelineEvent::StepFailed(error)) => {
            &&& r.state is Failed
            &&& (r.cmd matches PipelineCmd::Fail(e2) && e2.kind == error.kind)
            &&& r.progress@.len() == 0
        },
        _ => true,
    }
}

/// Advance the pipeline by one event.
pub fn pipeline_step(s: PipelineState, e: PipelineEvent) -> (r: PipelineStep)
    requires
        pipeline_expects(s, e),
    ensures
        pipeline_step_post(s, e, r),
{
    match (s, e) {
        (PipelineState::Start, PipelineEvent::Begin) => {
            let mut progress: Vec<Progress> = Vec::new();
            progress.push(Progress::new(1, "正在连接更新服务器..."));
            PipelineStep {
                state: PipelineState::FetchingRemote,
                progress,
                cmd: PipelineCmd::Do(PipelineAction::FetchRemote),
            }
        },
        (PipelineState::FetchingRemote, PipelineEvent::RemoteFetched(remote)) => {
            PipelineStep {
                state: PipelineState::CheckingSelfUpdate { remote },
                progress: Vec::new(),
                cmd: PipelineCmd::Do(PipelineAction::CheckSelfUpdate),
            }
        },
        (PipelineState::FetchingRemote, PipelineEvent::RemoteFetchFailed { bootstrapped, error }) => {
            let offline = bootstrapped && matches!(error.kind, UpdateErrorKind::NetworkUnavailable);
            if offline {
                let mut progress: Vec<Progress> = Vec::new();
                progress.push(Progress::new(100, "离线模式 — 跳过更新"));
                PipelineStep {
                    state: PipelineState::Finished(UpdateResult::Offline),
                    progress,
                    cmd: PipelineCmd::Finish(UpdateResult::Offline),
                }
            } else {
                let wrapped = error.wrap(
                    String::from_str("首次运行需要网络连接来下载必要组件。请检查网络后重试。"),
                );
                PipelineStep {
                    state: PipelineState::Failed,
                    progress: Vec::new(),
                    cmd: PipelineCmd::Fail(wrapped),
                }
            }
        },
        (PipelineState::CheckingSelfUpdate { remote }, PipelineEvent::SelfUpdateChecked(out)) => {
            match out {
                SelfUpdateResult::Restarting => PipelineStep {
                    state: PipelineState::Finished(UpdateResult::SelfUpdateRestarting),
                    progress: Vec::new(),
                    cmd: PipelineCmd::Finish(UpdateResult::SelfUpdateRestarting),
                },
                SelfUpdateResult::UpToDate => PipelineStep {
                    state: PipelineState::ProbingComponents { remote },
                    progress: Vec::new(),
                    cmd: PipelineCmd::Do(PipelineAction::ProbeComponents),
                },
            }
        },
        (PipelineState::CheckingSelfUpdate { remote }, PipelineEvent::SelfUpdateFailed(_)) => {
            PipelineStep {
                state: PipelineState::ProbingComponents { remote },
                progress: Vec::new(),
                cmd: PipelineCmd::Do(PipelineAction::ProbeComponents),
            }
        },
        (PipelineState::ProbingComponents { remote }, PipelineEvent::ComponentsProbed {
            needs_bootstrap,
        }) => {
            if needs_bootstrap {
                let mut progress: Vec<Progress> = Vec::new();
                progress.push(Progress::new(2, "首次运行，正在下载组件..."));
                PipelineStep {
                    state: PipelineState::Bootstrapping { remote },
                    progress,
                    cmd: PipelineCmd::Do(PipelineAction::RunBootstrap),
                }
            } else {
                let mut progress: Vec<Progress> = Vec::new();
                progress.push(Progress::new(50, "组件检查完毕"));
                PipelineStep {
                    state: PipelineState::ReadingLocal { remote },
                    progress,
                    cmd: PipelineCmd::Do(PipelineAction::ReadLocal),
                }
            }
        },
        (PipelineState::Bootstrapping { remote }, PipelineEvent::StepDone) => {
            let mut progress: Vec<Progress> = Vec::new();
            progress.push(Progress::new(50, "首次安装完成"));
            PipelineStep {
                state: PipelineState::ReadingLocal { remote },
                progress,
                cmd: PipelineCmd::Do(PipelineAction::ReadLocal),
            }
        },
        (PipelineState::ReadingLocal { remote }, PipelineEvent::LocalRead(local)) => {
            let mut remote_msg = String::from_str("远程版本: MC ");
            remote_msg.append(remote.mc_version.as_str());
            remote_msg.append(" / Fabric ");
            remote_msg.append(remote.fabric_version.as_str());
            let mut progress: Vec<Progress> = Vec::new();
            progress.push(Progress::new(55, remote_msg.as_str()));
            if crate::version::needs_version_upgrade(&remote, &local) {
                let mut up_msg = String::from_str("正在升级到 MC ");
                up_msg.append(remote.mc_version.as_str());
                up_msg.append(" ...");
                progress.push(Progress::new(58, up_msg.as_str()));
                progress.push(Progress::new(60, "正在安装 Fabric..."));
                let mc_version = remote.mc_version.clone();
                let fabric_version = remote.fabric_version.clone();
                PipelineStep {
                    state: PipelineState::InstallingComponents { remote },
                    progress,
                    cmd: PipelineCmd::Do(
                        PipelineAction::InstallComponents { mc_version, fabric_version },
                    ),
                }
            } else {
                progress.push(Progress::new(78, "版本已是最新"));
                progress.push(Progress::new(79, "检查原版 MC 客户端..."));
                let mc_version = remote.mc_version.clone();
                PipelineStep {
                    state: PipelineState::EnsuringVanilla { remote },
                    progress,
                    cmd: PipelineCmd::Do(PipelineAction::EnsureVanilla { mc_version }),
                }
            }
        },
        (PipelineState::InstallingComponents { remote }, PipelineEvent::StepDone) => {
            let mut progress: Vec<Progress> = Vec::new();
            progress.push(Progress::new(70, "正在清理旧版本..."));
            let keep_tag = remote.version_tag.clone();
            PipelineStep {
                state: PipelineState::CleaningVersions { remote },
                progress,
                cmd: PipelineCmd::Do(PipelineAction::CleanupVersions { keep_tag }),
            }
        },
        (PipelineState::CleaningVersions { remote }, PipelineEvent::StepDone) => {
            let mut progress: Vec<Progress> = Vec::new();
            progress.push(Progress::new(75, "正在清理旧模组..."));
            PipelineStep {
                state: PipelineState::CleaningMods { remote },
                progress,
                cmd: PipelineCmd::Do(PipelineAction::CleanMods),
            }
        },
        (PipelineState::CleaningMods { remote }, PipelineEvent::StepDone) => {
            let version = LocalVersion {
                mc_version: remote.mc_version.clone(),
                fabric_version: remote.fabric_version.clone(),
                version_tag: remote.version_tag.clone(),
            };
            PipelineStep {
                state: PipelineState::SavingLocal { remote },
                progress: Vec::new(),
                cmd: PipelineCmd::Do(PipelineAction::SaveLocal { version }),
            }
        },
        (PipelineState::SavingLocal { remote }, PipelineEvent::StepDone) => {
            let mut progress: Vec<Progress> = Vec::new();
            progress.push(Progress::new(78, "版本升级完成"));
            progress.push(Progress::new(79, "检查原版 MC 客户端..."));
            let mc_version = remote.mc_version.clone();
            PipelineStep {
                state: PipelineState::EnsuringVanilla { remote },
                progress,
                cmd: PipelineCmd::Do(PipelineAction::EnsureVanilla { mc_version }),
            }
        },
        (PipelineState::EnsuringVanilla { remote }, PipelineEvent::StepDone) => {
            let mut progress: Vec<Progress> = Vec::new();
            progress.push(Progress::new(79, "修正版本隔离设置..."));
            let version_tag = remote.version_tag.clone();
            PipelineStep {
                state: PipelineState::FixingIsolation { remote },
                progress,
                cmd: PipelineCmd::Do(PipelineAction::FixIsolation { version_tag }),
            }
        },
        (PipelineState::FixingIsolation { remote }, PipelineEvent::StepDone) => {
            let mut progress: Vec<Progress> = Vec::new();
            progress.push(Progress::new(80, "正在同步模组..."));
            let pack_url = remote.pack_url.clone();
            PipelineStep {
                state: PipelineState::Syncing { remote },
                progress,
                cmd: PipelineCmd::Do(PipelineAction::SyncContent { pack_url }),
            }
        },
        (PipelineState::Syncing { remote }, PipelineEvent::StepDone) => {
            let mut progress: Vec<Progress> = Vec::new();
            progress.push(Progress::new(95, "模组同步完成"));
            progress.push(Progress::new(100, "更新完成，正在启动游戏..."));
            PipelineStep {
                state: PipelineState::Finished(UpdateResult::Success),
                progress,
                cmd: PipelineCmd::Finish(UpdateResult::Success),
            }
        },
        (_, PipelineEvent::StepFailed(error)) => {
            PipelineStep {
                state: PipelineState::Failed,
                progress: Vec::new(),
                cmd: PipelineCmd::Fail(error),
            }
        },
        _ => {
            // unreachable under the precondition
            PipelineStep {
                state: PipelineState::Failed,
                progress: Vec::new(),
                cmd: PipelineCmd::Finish(UpdateResult::Offline),
            }
        },
    }
}

} // verus!
