//! What the runtime shows of itself: the views of workspaces, threads and sessions, and the
//! health of the whole.
use serde_json::Value;
use vstd::prelude::*;
use vstd::string::*;

use crate::collaboration_mode::CollaborationMode;
use crate::execution_mode::ExecutionMode;
use crate::paths;
use crate::ranking;
use crate::ranking::Ranked;
use crate::repository;
use crate::repository::{
    BindingModel, MetadataModel, RecentCodexSessionEntry, RecentSessionModel, SessionBinding,
    ThreadMetadata,
};
use crate::runtime_owner::{
    HeartbeatModel, OwnerStatusModel, RuntimeOwnerStatus, WorkspaceRuntimeHeartbeat,
};
use crate::text;
use crate::thread_state;
use crate::thread_state::ResolvedThreadState;
pub use crate::working_sessions::{
    build_working_session_records, build_working_session_summaries, WorkingSessionRecordKind,
    WorkingSessionRecordView, WorkingSessionSummaryView,
};

verus! {

broadcast use vstd::string::group_string_axioms;

/// What an event of the runtime is about.
#[derive(Debug, Clone, Copy, PartialEq, Eq, Structural)]
pub enum RuntimeEventKind {
    SetupChanged,
    RuntimeHealthChanged,
    ManagedCodexChanged,
    ThreadStateChanged,
    WorkspaceStateChanged,
    ArchivedThreadChanged,
    WorkingSessionChanged,
    TranscriptChanged,
    Error,
}

impl RuntimeEventKind {
    /// The name of the kind.
    pub open spec fn name(self) -> Seq<char> {
        match self {
            RuntimeEventKind::SetupChanged => "setup_changed"@,
            RuntimeEventKind::RuntimeHealthChanged => "runtime_health_changed"@,
            RuntimeEventKind::ManagedCodexChanged => "managed_codex_changed"@,
            RuntimeEventKind::ThreadStateChanged => "thread_state_changed"@,
            RuntimeEventKind::WorkspaceStateChanged => "workspace_state_changed"@,
            RuntimeEventKind::ArchivedThreadChanged => "archived_thread_changed"@,
            RuntimeEventKind::WorkingSessionChanged => "working_session_changed"@,
            RuntimeEventKind::TranscriptChanged => "transcript_changed"@,
            RuntimeEventKind::Error => "error"@,
        }
    }

    /// The name of the kind.
    pub fn as_str(self) -> (res: &'static str)
        ensures
            res@ == self.name(),
    {
        match self {
            RuntimeEventKind::SetupChanged => "setup_changed",
            RuntimeEventKind::RuntimeHealthChanged => "runtime_health_changed",
            RuntimeEventKind::ManagedCodexChanged => "managed_codex_changed",
            RuntimeEventKind::ThreadStateChanged => "thread_state_changed",
            RuntimeEventKind::WorkspaceStateChanged => "workspace_state_changed",
            RuntimeEventKind::ArchivedThreadChanged => "archived_thread_changed",
            RuntimeEventKind::WorkingSessionChanged => "working_session_changed",
            RuntimeEventKind::TranscriptChanged => "transcript_changed",
            RuntimeEventKind::Error => "error",
        }
    }
}

/// An action that controls the runtime.
#[derive(Debug, Clone, Copy, PartialEq, Eq, Structural)]
pub enum RuntimeControlAction {
    StartFreshSession,
    RepairSessionBinding,
    LaunchLocalSession,
    SetWorkspaceExecutionMode,
    SetThreadCollaborationMode,
    InterruptRunningTurn,
    AdoptTuiSession,
    RejectTuiSession,
    ArchiveThread,
    RestoreThread,
    RepairWorkspaceRuntime,
}

impl RuntimeControlAction {
    /// The name of the action.
    pub open spec fn name(self) -> Seq<char> {
        match self {
            RuntimeControlAction::StartFreshSession => "start_fresh_session"@,
            RuntimeControlAction::RepairSessionBinding => "repair_session_binding"@,
            RuntimeControlAction::LaunchLocalSession => "launch_local_session"@,
            RuntimeControlAction::SetWorkspaceExecutionMode => "set_workspace_execution_mode"@,
            RuntimeControlAction::SetThreadCollaborationMode => "set_thread_collaboration_mode"@,
            RuntimeControlAction::InterruptRunningTurn => "interrupt_running_turn"@,
            RuntimeControlAction::AdoptTuiSession => "adopt_tui_session"@,
            RuntimeControlAction::RejectTuiSession => "reject_tui_session"@,
            RuntimeControlAction::ArchiveThread => "archive_thread"@,
            RuntimeControlAction::RestoreThread => "restore_thread"@,
            RuntimeControlAction::RepairWorkspaceRuntime => "repair_workspace_runtime"@,
        }
    }

    /// The name of the action.
    pub fn as_str(self) -> (res: &'static str)
        ensures
            res@ == self.name(),
    {
        match self {
            RuntimeControlAction::StartFreshSession => "start_fresh_session",
            RuntimeControlAction::RepairSessionBinding => "repair_session_binding",
            RuntimeControlAction::LaunchLocalSession => "launch_local_session",
            RuntimeControlAction::SetWorkspaceExecutionMode => "set_workspace_execution_mode",
            RuntimeControlAction::SetThreadCollaborationMode => "set_thread_collaboration_mode",
            RuntimeControlAction::InterruptRunningTurn => "interrupt_running_turn",
            RuntimeControlAction::AdoptTuiSession => "adopt_tui_session",
            RuntimeControlAction::RejectTuiSession => "reject_tui_session",
            RuntimeControlAction::ArchiveThread => "archive_thread",
            RuntimeControlAction::RestoreThread => "restore_thread",
            RuntimeControlAction::RepairWorkspaceRuntime => "repair_workspace_runtime",
        }
    }
}

/// What an interaction with the runtime is.
#[derive(Debug, Clone, Copy, PartialEq, Eq, Structural)]
pub enum RuntimeInteractionKind {
    RequestUserInput,
    RequestResolved,
    TurnCompleted,
}

impl RuntimeInteractionKind {
    /// The name of the kind.
    pub open spec fn name(self) -> Seq<char> {
        match self {
            RuntimeInteractionKind::RequestUserInput => "request_user_input"@,
            RuntimeInteractionKind::RequestResolved => "request_resolved"@,
            RuntimeInteractionKind::TurnCompleted => "turn_completed"@,
        }
    }

    /// The name of the kind.
    pub fn as_str(self) -> (res: &'static str)
        ensures
            res@ == self.name(),
    {
        match self {
            RuntimeInteractionKind::RequestUserInput => "request_user_input",
            RuntimeInteractionKind::RequestResolved => "request_resolved",
            RuntimeInteractionKind::TurnCompleted => "turn_completed",
        }
    }
}

/// What an event does to what is shown.
#[derive(Debug, Clone, Copy, PartialEq, Eq, Structural)]
pub enum RuntimeEventOperation {
    Upsert,
    Remove,
}

/// The Codex binary that is in use.
#[derive(Debug, Clone)]
pub struct ManagedCodexView {
    pub source: &'static str,
    pub source_file_path: String,
    pub build_config_file_path: String,
    pub build_info_file_path: String,
    pub binary_path: String,
    pub binary_ready: bool,
    pub version: Option<String>,
    pub build_defaults: ManagedCodexBuildDefaultsView,
    pub build_info: Option<ManagedCodexBuildInfoView>,
}

/// How the Codex binary was built.
#[derive(Debug, Clone)]
pub struct ManagedCodexBuildInfoView {
    pub source_repo: Option<String>,
    pub source_rs_dir: Option<String>,
    pub build_profile: Option<String>,
    pub git_rev: Option<String>,
    pub binary: Option<String>,
}

/// How the Codex binary is built unless something else is said.
#[derive(Debug, Clone)]
pub struct ManagedCodexBuildDefaultsView {
    pub source_repo: String,
    pub source_rs_dir: String,
    pub build_profile: String,
}

/// What is known of the runtime of a workspace.
#[derive(Debug, Clone)]
pub struct WorkspaceRuntimeHealth {
    pub app_server_status: &'static str,
    pub hcodex_ingress_status: &'static str,
    pub runtime_readiness: &'static str,
    pub source: &'static str,
    pub last_checked_at: Option<String>,
    pub last_error: Option<String>,
}

/// The model of what is known of the runtime of a workspace.
#[verifier::ext_equal]
pub struct HealthModel {
    pub app_server_status: Seq<char>,
    pub hcodex_ingress_status: Seq<char>,
    pub runtime_readiness: Seq<char>,
    pub source: Seq<char>,
    pub last_checked_at: Option<Seq<char>>,
    pub last_error: Option<Seq<char>>,
}

impl View for WorkspaceRuntimeHealth {
    type V = HealthModel;

    open spec fn view(&self) -> HealthModel {
        HealthModel {
            app_server_status: self.app_server_status@,
            hcodex_ingress_status: self.hcodex_ingress_status@,
            runtime_readiness: self.runtime_readiness@,
            source: self.source@,
            last_checked_at: text::opt_view(self.last_checked_at),
            last_error: text::opt_view(self.last_error),
        }
    }
}

/// The health that a heartbeat stands for.
pub open spec fn health_of_heartbeat(heartbeat: HeartbeatModel) -> HealthModel {
    HealthModel {
        app_server_status: heartbeat.app_server_status,
        hcodex_ingress_status: heartbeat.hcodex_ingress_status,
        runtime_readiness: heartbeat.runtime_readiness,
        source: "owner_heartbeat"@,
        last_checked_at: Some(heartbeat.last_checked_at),
        last_error: heartbeat.last_error,
    }
}

/// The health of a workspace: what its heartbeat says, and unavailable where there is no
/// owner or the owner has not looked at the workspace.
pub open spec fn health_of(
    workspace: Seq<char>,
    has_owner: bool,
    heartbeat: Option<HeartbeatModel>,
) -> HealthModel {
    match heartbeat {
        Some(heartbeat) if has_owner => health_of_heartbeat(heartbeat),
        _ => HealthModel {
            app_server_status: "missing"@,
            hcodex_ingress_status: "missing"@,
            runtime_readiness: "unavailable"@,
            source: if has_owner {
                "owner_pending"@
            } else {
                "owner_required"@
            },
            last_checked_at: None,
            last_error: Some(
                if has_owner {
                    "desktop runtime owner has not published a heartbeat for "@ + workspace
                        + " yet"@
                } else {
                    "desktop runtime owner is required for managed workspace runtime"@
                },
            ),
        },
    }
}

impl WorkspaceRuntimeHealth {
    /// The health that a heartbeat stands for.
    pub fn from_heartbeat(heartbeat: WorkspaceRuntimeHeartbeat) -> (res: Self)
        ensures
            res@ == health_of_heartbeat(heartbeat@),
    {
        WorkspaceRuntimeHealth {
            app_server_status: heartbeat.app_server_status,
            hcodex_ingress_status: heartbeat.hcodex_ingress_status,
            runtime_readiness: heartbeat.runtime_readiness,
            source: "owner_heartbeat",
            last_checked_at: Some(heartbeat.last_checked_at),
            last_error: heartbeat.last_error,
        }
    }
}

/// The model of a heartbeat that may be absent.
pub open spec fn opt_heartbeat(heartbeat: Option<WorkspaceRuntimeHeartbeat>) -> Option<
    HeartbeatModel,
> {
    match heartbeat {
        Some(heartbeat) => Some(heartbeat@),
        None => None,
    }
}

/// The health of a workspace, from whether there is an owner and what heartbeat it has.
pub fn read_workspace_runtime_health(
    workspace_path: &str,
    has_owner: bool,
    heartbeat: Option<WorkspaceRuntimeHeartbeat>,
) -> (res: WorkspaceRuntimeHealth)
    ensures
        res@ == health_of(workspace_path@, has_owner, opt_heartbeat(heartbeat)),
{
    if !has_owner {
        return WorkspaceRuntimeHealth {
            app_server_status: "missing",
            hcodex_ingress_status: "missing",
            runtime_readiness: "unavailable",
            source: "owner_required",
            last_checked_at: None,
            last_error: Some(
                "desktop runtime owner is required for managed workspace runtime".to_owned(),
            ),
        };
    }
    match heartbeat {
        Some(heartbeat) => WorkspaceRuntimeHealth::from_heartbeat(heartbeat),
        None => {
            let mut message = "desktop runtime owner has not published a heartbeat for ".to_owned();
            message.push_str(workspace_path);
            message.push_str(" yet");
            WorkspaceRuntimeHealth {
                app_server_status: "missing",
                hcodex_ingress_status: "missing",
                runtime_readiness: "unavailable",
                source: "owner_pending",
                last_checked_at: None,
                last_error: Some(message),
            }
        },
    }
}

/// What is said where several threads are bound to one workspace.
pub open spec fn conflict_hint() -> Seq<char> {
    "Resolve the active workspace binding conflict first. Tray launch stays disabled until only one active binding remains."@
}

/// Whether a session was lost because the server no longer has it.
pub open spec fn is_unloaded(reason: Option<Seq<char>>) -> bool {
    match reason {
        Some(reason) => {
            let lower = text::ascii_lowercase(reason);
            text::contains(lower, "thread/read failed"@) && text::contains(
                lower,
                "thread not loaded"@,
            )
        },
        None => false,
    }
}

/// What to do about a workspace, the most urgent thing first.
pub open spec fn hint_of(
    conflict: bool,
    binding_status: Seq<char>,
    reason: Option<Seq<char>>,
    health: HealthModel,
    adoption_pending: bool,
    tui_session: Option<Seq<char>>,
) -> Option<Seq<char>> {
    if conflict {
        Some(conflict_hint())
    } else if health.source == "owner_required"@ || health.source == "owner_pending"@ {
        Some(
            "Desktop runtime owner is required for this workspace. Start threadbridge_desktop and run Repair Runtime or Reconcile Runtime Owner."@,
        )
    } else if health.app_server_status != "running"@ {
        Some(
            "App-server is not ready. Run Repair Runtime for this workspace, or Reconcile Runtime Owner for all managed workspaces."@,
        )
    } else if health.hcodex_ingress_status != "running"@ {
        Some(
            "hcodex launch endpoint is not ready. Run Repair Runtime for this workspace, or Reconcile Runtime Owner to repair the workspace launch surface."@,
        )
    } else if adoption_pending || health.runtime_readiness == "pending_adoption"@ {
        Some(
            "A live TUI session is waiting for adoption. Adopt TUI from Active Threads, or reject it to keep the original binding."@,
        )
    } else if binding_status == "broken"@ && text::filled(tui_session) is Some {
        Some(
            "The saved Codex session is no longer the best recovery target, but this workspace has a live TUI session. Use Adopt TUI to promote that live session, or New Session to start fresh."@,
        )
    } else if is_unloaded(reason) {
        Some(
            "The saved Codex session is no longer loaded by app-server. Use New Session to start a fresh session, or Adopt TUI if this workspace already has a live TUI session."@,
        )
    } else if binding_status == "broken"@ {
        Some(
            "Codex continuity is marked broken. Use Repair Session after the runtime surface is healthy."@,
        )
    } else if health.runtime_readiness == "degraded"@ {
        Some(
            "Runtime readiness is degraded. Reconcile Runtime Owner or Repair Runtime to restore app-server and proxy continuity."@,
        )
    } else {
        match health.last_error {
            Some(error) => Some("Inspect the latest runtime error before retrying: "@ + error),
            None => None,
        }
    }
}

/// What to do about a workspace.
pub fn workspace_recovery_hint(
    conflict: bool,
    binding_status: &str,
    session_broken_reason: Option<&str>,
    runtime_status: &WorkspaceRuntimeHealth,
    adoption_pending: bool,
    tui_active_codex_thread_id: Option<&str>,
) -> (res: Option<String>)
    ensures
        text::opt_view(res) == hint_of(
            conflict,
            binding_status@,
            text::opt_str_view(session_broken_reason),
            runtime_status@,
            adoption_pending,
            text::opt_str_view(tui_active_codex_thread_id),
        ),
{
    if conflict {
        return Some(
            "Resolve the active workspace binding conflict first. Tray launch stays disabled until only one active binding remains.".to_owned(),
        );
    }
    if text::same_text(runtime_status.source, "owner_required") || text::same_text(
        runtime_status.source,
        "owner_pending",
    ) {
        return Some(
            "Desktop runtime owner is required for this workspace. Start threadbridge_desktop and run Repair Runtime or Reconcile Runtime Owner.".to_owned(),
        );
    }
    if !text::same_text(runtime_status.app_server_status, "running") {
        return Some(
            "App-server is not ready. Run Repair Runtime for this workspace, or Reconcile Runtime Owner for all managed workspaces.".to_owned(),
        );
    }
    if !text::same_text(runtime_status.hcodex_ingress_status, "running") {
        return Some(
            "hcodex launch endpoint is not ready. Run Repair Runtime for this workspace, or Reconcile Runtime Owner to repair the workspace launch surface.".to_owned(),
        );
    }
    if adoption_pending || text::same_text(runtime_status.runtime_readiness, "pending_adoption") {
        return Some(
            "A live TUI session is waiting for adoption. Adopt TUI from Active Threads, or reject it to keep the original binding.".to_owned(),
        );
    }
    let broken = text::same_text(binding_status, "broken");
    if broken && text::trim_filled(tui_active_codex_thread_id).is_some() {
        return Some(
            "The saved Codex session is no longer the best recovery target, but this workspace has a live TUI session. Use Adopt TUI to promote that live session, or New Session to start fresh.".to_owned(),
        );
    }
    let unloaded = match session_broken_reason {
        Some(reason) => {
            let lower = text::to_ascii_lowercase(reason);
            text::has_text(lower.as_str(), "thread/read failed") && text::has_text(
                lower.as_str(),
                "thread not loaded",
            )
        },
        None => false,
    };
    if unloaded {
        return Some(
            "The saved Codex session is no longer loaded by app-server. Use New Session to start a fresh session, or Adopt TUI if this workspace already has a live TUI session.".to_owned(),
        );
    }
    if broken {
        return Some(
            "Codex continuity is marked broken. Use Repair Session after the runtime surface is healthy.".to_owned(),
        );
    }
    if text::same_text(runtime_status.runtime_readiness, "degraded") {
        return Some(
            "Runtime readiness is degraded. Reconcile Runtime Owner or Repair Runtime to restore app-server and proxy continuity.".to_owned(),
        );
    }
    match &runtime_status.last_error {
        Some(error) => {
            let mut hint = "Inspect the latest runtime error before retrying: ".to_owned();
            hint.push_str(error.as_str());
            Some(hint)
        },
        None => None,
    }
}

/// Why the session of a binding is broken, where it is: what the binding says, and what the
/// metadata say where the binding says nothing.
pub open spec fn broken_reason_of(metadata: MetadataModel, binding: Option<BindingModel>) -> Option<
    Seq<char>,
> {
    match binding {
        Some(binding) if binding.session_broken => match binding.session_broken_reason {
            Some(reason) => Some(reason),
            None => metadata.session_broken_reason,
        },
        _ => None,
    }
}

/// Since when the session of a binding is broken, where it is.
pub open spec fn broken_at_of(metadata: MetadataModel, binding: Option<BindingModel>) -> Option<
    Seq<char>,
> {
    match binding {
        Some(binding) if binding.session_broken => match binding.session_broken_at {
            Some(at) => Some(at),
            None => metadata.session_broken_at,
        },
        _ => None,
    }
}

/// Why the session of a binding is broken, where it is.
pub fn canonical_binding_broken_reason(
    metadata: &ThreadMetadata,
    binding: Option<&SessionBinding>,
) -> (res: Option<String>)
    ensures
        text::opt_view(res) == broken_reason_of(
            metadata@,
            repository::opt_binding_ref(binding),
        ),
{
    match binding {
        Some(binding) => {
            if !binding.session_broken {
                None
            } else if binding.session_broken_reason.is_some() {
                text::clone_opt(&binding.session_broken_reason)
            } else {
                text::clone_opt(&metadata.session_broken_reason)
            }
        },
        None => None,
    }
}

/// Since when the session of a binding is broken, where it is.
pub fn canonical_binding_broken_at(
    metadata: &ThreadMetadata,
    binding: Option<&SessionBinding>,
) -> (res: Option<String>)
    ensures
        text::opt_view(res) == broken_at_of(metadata@, repository::opt_binding_ref(binding)),
{
    match binding {
        Some(binding) => {
            if !binding.session_broken {
                None
            } else if binding.session_broken_at.is_some() {
                text::clone_opt(&binding.session_broken_at)
            } else {
                text::clone_opt(&metadata.session_broken_at)
            }
        },
        None => None,
    }
}

/// Whether a session runs with other permissions than its workspace has now.
pub open spec fn has_drifted(mode: ExecutionMode, binding: BindingModel) -> bool {
    binding.current_codex_thread_id is Some && binding.current_execution_mode != Some(mode)
}

/// Whether a session runs with other permissions than its workspace has now.
pub fn workspace_mode_drift(
    workspace_execution_mode: ExecutionMode,
    binding: &SessionBinding,
) -> (res: bool)
    ensures
        res == has_drifted(workspace_execution_mode, binding@),
{
    binding.current_codex_thread_id.is_some() && match binding.current_execution_mode {
        Some(mode) => mode != workspace_execution_mode,
        None => true,
    }
}

/// What is shown of a workspace.
#[derive(Debug, Clone)]
pub struct ManagedWorkspaceView {
    pub workspace_cwd: String,
    pub title: Option<String>,
    pub thread_key: Option<String>,
    pub workspace_execution_mode: ExecutionMode,
    pub current_execution_mode: Option<ExecutionMode>,
    pub current_approval_policy: Option<String>,
    pub current_sandbox_policy: Option<String>,
    pub mode_drift: bool,
    pub binding_status: &'static str,
    pub run_status: &'static str,
    pub run_phase: &'static str,
    pub current_codex_thread_id: Option<String>,
    pub tui_active_codex_thread_id: Option<String>,
    pub tui_session_adoption_pending: bool,
    pub last_used_at: Option<String>,
    pub conflict: bool,
    pub app_server_status: &'static str,
    pub hcodex_ingress_status: &'static str,
    pub runtime_readiness: &'static str,
    pub runtime_health_source: &'static str,
    pub heartbeat_last_checked_at: Option<String>,
    pub heartbeat_last_error: Option<String>,
    pub session_broken_reason: Option<String>,
    pub recovery_hint: Option<String>,
    pub hcodex_path: String,
    pub hcodex_available: bool,
    pub recent_codex_sessions: Vec<RecentCodexSessionEntry>,
}

/// The model of what is shown of a workspace.
#[verifier::ext_equal]
pub struct WorkspaceModel {
    pub workspace_cwd: Seq<char>,
    pub title: Option<Seq<char>>,
    pub thread_key: Option<Seq<char>>,
    pub workspace_execution_mode: ExecutionMode,
    pub current_execution_mode: Option<ExecutionMode>,
    pub current_approval_policy: Option<Seq<char>>,
    pub current_sandbox_policy: Option<Seq<char>>,
    pub mode_drift: bool,
    pub binding_status: Seq<char>,
    pub run_status: Seq<char>,
    pub run_phase: Seq<char>,
    pub current_codex_thread_id: Option<Seq<char>>,
    pub tui_active_codex_thread_id: Option<Seq<char>>,
    pub tui_session_adoption_pending: bool,
    pub last_used_at: Option<Seq<char>>,
    pub conflict: bool,
    pub app_server_status: Seq<char>,
    pub hcodex_ingress_status: Seq<char>,
    pub runtime_readiness: Seq<char>,
    pub runtime_health_source: Seq<char>,
    pub heartbeat_last_checked_at: Option<Seq<char>>,
    pub heartbeat_last_error: Option<Seq<char>>,
    pub session_broken_reason: Option<Seq<char>>,
    pub recovery_hint: Option<Seq<char>>,
    pub hcodex_path: Seq<char>,
    pub hcodex_available: bool,
    pub recent_codex_sessions: Seq<RecentSessionModel>,
}

impl View for ManagedWorkspaceView {
    type V = WorkspaceModel;

    open spec fn view(&self) -> WorkspaceModel {
        WorkspaceModel {
            workspace_cwd: self.workspace_cwd@,
            title: text::opt_view(self.title),
            thread_key: text::opt_view(self.thread_key),
            workspace_execution_mode: self.workspace_execution_mode,
            current_execution_mode: self.current_execution_mode,
            current_approval_policy: text::opt_view(self.current_approval_policy),
            current_sandbox_policy: text::opt_view(self.current_sandbox_policy),
            mode_drift: self.mode_drift,
            binding_status: self.binding_status@,
            run_status: self.run_status@,
            run_phase: self.run_phase@,
            current_codex_thread_id: text::opt_view(self.current_codex_thread_id),
            tui_active_codex_thread_id: text::opt_view(self.tui_active_codex_thread_id),
            tui_session_adoption_pending: self.tui_session_adoption_pending,
            last_used_at: text::opt_view(self.last_used_at),
            conflict: self.conflict,
            app_server_status: self.app_server_status@,
            hcodex_ingress_status: self.hcodex_ingress_status@,
            runtime_readiness: self.runtime_readiness@,
            runtime_health_source: self.runtime_health_source@,
            heartbeat_last_checked_at: text::opt_view(self.heartbeat_last_checked_at),
            heartbeat_last_error: text::opt_view(self.heartbeat_last_error),
            session_broken_reason: text::opt_view(self.session_broken_reason),
            recovery_hint: text::opt_view(self.recovery_hint),
            hcodex_path: self.hcodex_path@,
            hcodex_available: self.hcodex_available,
            recent_codex_sessions: ranking::list_views(self.recent_codex_sessions@),
        }
    }
}

impl Ranked for ManagedWorkspaceView {
    open spec fn before(a: WorkspaceModel, b: WorkspaceModel) -> bool {
        text::text_before(a.workspace_cwd, b.workspace_cwd)
    }

    fn ranks_before(&self, other: &Self) -> (res: bool) {
        text::comes_before(self.workspace_cwd.as_str(), other.workspace_cwd.as_str())
    }
}

/// What was read of an active thread and its workspace. Why the state of the thread could
/// not be resolved is given in words.
pub struct WorkspaceViewInput {
    pub metadata: ThreadMetadata,
    pub binding: Option<SessionBinding>,
    pub workspace_execution_mode: ExecutionMode,
    pub runtime_status: WorkspaceRuntimeHealth,
    pub recent_sessions: Vec<RecentCodexSessionEntry>,
    pub resolved_state: Result<ResolvedThreadState, String>,
    pub hcodex_available: bool,
}

/// A ready runtime with a session to adopt is pending adoption.
pub open spec fn awaiting_adoption(health: HealthModel, pending: bool) -> HealthModel {
    if pending && health.runtime_readiness == "ready"@ {
        HealthModel { runtime_readiness: "pending_adoption"@, ..health }
    } else {
        health
    }
}

/// A runtime whose threads cannot be asked for is not ready, and its server does not run.
pub open spec fn degraded_by(health: HealthModel, error: Seq<char>) -> HealthModel {
    HealthModel {
        last_error: Some(
            match health.last_error {
                Some(existing) => existing + "; "@ + error,
                None => error,
            },
        ),
        runtime_readiness: if health.runtime_readiness == "ready"@ {
            "degraded"@
        } else {
            health.runtime_readiness
        },
        app_server_status: if health.app_server_status == "running"@ {
            "unavailable"@
        } else {
            health.app_server_status
        },
        ..health
    }
}

/// The health of a workspace as it is shown.
pub open spec fn shown_health(
    health: HealthModel,
    pending: bool,
    state: Result<ResolvedThreadState, String>,
) -> HealthModel {
    match state {
        Ok(_) => awaiting_adoption(health, pending),
        Err(error) => degraded_by(awaiting_adoption(health, pending), error@),
    }
}

/// The run status as it is shown.
pub open spec fn shown_run_status(state: Result<ResolvedThreadState, String>) -> Seq<char> {
    match state {
        Ok(state) => state.run_status.name(),
        Err(_) => "unavailable"@,
    }
}

/// The run phase as it is shown.
pub open spec fn shown_run_phase(state: Result<ResolvedThreadState, String>) -> Seq<char> {
    match state {
        Ok(state) => state.run_phase.name(),
        Err(_) => "unavailable"@,
    }
}

/// Where the launcher of a workspace is.
pub open spec fn launcher_of(workspace: Seq<char>) -> Seq<char> {
    paths::below(paths::below(paths::below(workspace, ".threadbridge"@), "bin"@), "hcodex"@)
}

/// What is shown of the workspace of a thread, before conflicts are looked for.
pub open spec fn workspace_item(
    input: WorkspaceViewInput,
    binding: BindingModel,
    workspace: Seq<char>,
) -> WorkspaceModel {
    let status = thread_state::binding_status_of(Some(binding)).name();
    let reason = broken_reason_of(input.metadata@, Some(binding));
    let pending = binding.tui_session_adoption_pending;
    let health = shown_health(input.runtime_status@, pending, input.resolved_state);
    WorkspaceModel {
        workspace_cwd: workspace,
        title: input.metadata@.title,
        thread_key: Some(input.metadata@.thread_key),
        workspace_execution_mode: input.workspace_execution_mode,
        current_execution_mode: binding.current_execution_mode,
        current_approval_policy: binding.current_approval_policy,
        current_sandbox_policy: binding.current_sandbox_policy,
        mode_drift: has_drifted(input.workspace_execution_mode, binding),
        binding_status: status,
        run_status: shown_run_status(input.resolved_state),
        run_phase: shown_run_phase(input.resolved_state),
        current_codex_thread_id: binding.current_codex_thread_id,
        tui_active_codex_thread_id: binding.tui_active_codex_thread_id,
        tui_session_adoption_pending: pending,
        last_used_at: input.metadata@.last_codex_turn_at,
        conflict: false,
        app_server_status: health.app_server_status,
        hcodex_ingress_status: health.hcodex_ingress_status,
        runtime_readiness: health.runtime_readiness,
        runtime_health_source: health.source,
        heartbeat_last_checked_at: health.last_checked_at,
        heartbeat_last_error: health.last_error,
        session_broken_reason: reason,
        recovery_hint: hint_of(
            false,
            status,
            reason,
            health,
            pending,
            binding.tui_active_codex_thread_id,
        ),
        hcodex_path: launcher_of(workspace),
        hcodex_available: input.hcodex_available,
        recent_codex_sessions: ranking::list_views(input.recent_sessions@),
    }
}

/// What is shown of the workspaces of the threads that have one, in the order of the
/// threads.
pub open spec fn workspace_items(inputs: Seq<WorkspaceViewInput>) -> Seq<WorkspaceModel>
    decreases inputs.len(),
{
    if inputs.len() == 0 {
        Seq::empty()
    } else {
        let before = workspace_items(inputs.drop_last());
        match repository::opt_binding(inputs.last().binding) {
            Some(binding) => match binding.workspace_cwd {
                Some(workspace) => before.push(workspace_item(inputs.last(), binding, workspace)),
                None => before,
            },
            None => before,
        }
    }
}

/// Whether another item is about the same workspace.
pub open spec fn is_shared(items: Seq<WorkspaceModel>, i: int) -> bool {
    exists|j: int|
        0 <= j < items.len() && j != i && #[trigger] items[j].workspace_cwd
            == items[i].workspace_cwd
}

/// An item, marked where it is in conflict with another.
pub open spec fn marked(items: Seq<WorkspaceModel>, i: int) -> WorkspaceModel {
    if is_shared(items, i) {
        WorkspaceModel { conflict: true, recovery_hint: Some(conflict_hint()), ..items[i] }
    } else {
        items[i]
    }
}

/// All items, marked where they are in conflict.
pub open spec fn all_marked(items: Seq<WorkspaceModel>) -> Seq<WorkspaceModel> {
    Seq::new(items.len(), |i: int| marked(items, i))
}

/// What is shown of the workspaces, in the order of their paths.
pub open spec fn workspace_views(inputs: Seq<WorkspaceViewInput>) -> Seq<WorkspaceModel> {
    ranking::stable_sorted(
        all_marked(workspace_items(inputs)),
        |a: WorkspaceModel, b: WorkspaceModel| ManagedWorkspaceView::before(a, b),
    )
}

/// Where the launcher of a workspace is.
pub fn hcodex_path(workspace: &str) -> (res: String)
    ensures
        res@ == launcher_of(workspace@),
{
    let hidden = paths::join(workspace, ".threadbridge");
    let bin = paths::join(hidden.as_str(), "bin");
    paths::join(bin.as_str(), "hcodex")
}

/// The health of a workspace as it is shown, and the run status and phase.
fn resolve_health(
    health: WorkspaceRuntimeHealth,
    pending: bool,
    state: Result<ResolvedThreadState, String>,
) -> (res: (WorkspaceRuntimeHealth, &'static str, &'static str))
    ensures
        res.0@ == shown_health(health@, pending, state),
        res.1@ == shown_run_status(state),
        res.2@ == shown_run_phase(state),
{
    let mut health = health;
    if pending && text::same_text(health.runtime_readiness, "ready") {
        health.runtime_readiness = "pending_adoption";
    }
    match state {
        Ok(state) => (health, state.run_status.as_str(), state.run_phase.as_str()),
        Err(error) => {
            let message = match health.last_error {
                Some(existing) => {
                    let mut message = existing;
                    message.push_str("; ");
                    message.push_str(error.as_str());
                    message
                },
                None => error,
            };
            let readiness = if text::same_text(health.runtime_readiness, "ready") {
                "degraded"
            } else {
                health.runtime_readiness
            };
            let server = if text::same_text(health.app_server_status, "running") {
                "unavailable"
            } else {
                health.app_server_status
            };
            (
                WorkspaceRuntimeHealth {
                    app_server_status: server,
                    hcodex_ingress_status: health.hcodex_ingress_status,
                    runtime_readiness: readiness,
                    source: health.source,
                    last_checked_at: health.last_checked_at,
                    last_error: Some(message),
                },
                "unavailable",
                "unavailable",
            )
        },
    }
}

/// What is shown of the workspace of a thread, where it has one.
fn workspace_view(input: WorkspaceViewInput) -> (res: Option<ManagedWorkspaceView>)
    ensures
        match res {
            Some(view) => {
                &&& repository::opt_binding(input.binding) matches Some(binding)
                &&& binding.workspace_cwd matches Some(workspace)
                &&& view@ == workspace_item(input, binding, workspace)
            },
            None => {
                ||| input.binding is None
                ||| input.binding->0@.workspace_cwd is None
            },
        },
{
    let binding = match input.binding {
        Some(binding) => binding,
        None => return None,
    };
    let workspace = match text::clone_opt(&binding.workspace_cwd) {
        Some(workspace) => workspace,
        None => return None,
    };
    let binding_status = thread_state::resolve_binding_status(
        &input.metadata,
        Some(&binding),
    ).as_str();
    let session_broken_reason = canonical_binding_broken_reason(&input.metadata, Some(&binding));
    let pending = binding.tui_session_adoption_pending;
    let (health, run_status, run_phase) = resolve_health(
        input.runtime_status,
        pending,
        input.resolved_state,
    );
    let recovery_hint = workspace_recovery_hint(
        false,
        binding_status,
        text::as_deref(&session_broken_reason),
        &health,
        pending,
        text::as_deref(&binding.tui_active_codex_thread_id),
    );
    let mode_drift = workspace_mode_drift(input.workspace_execution_mode, &binding);
    let launcher = hcodex_path(workspace.as_str());
    Some(
        ManagedWorkspaceView {
            workspace_cwd: workspace,
            title: input.metadata.title,
            thread_key: Some(input.metadata.thread_key),
            workspace_execution_mode: input.workspace_execution_mode,
            current_execution_mode: binding.current_execution_mode,
            current_approval_policy: binding.current_approval_policy,
            current_sandbox_policy: binding.current_sandbox_policy,
            mode_drift,
            binding_status,
            run_status,
            run_phase,
            current_codex_thread_id: binding.current_codex_thread_id,
            tui_active_codex_thread_id: binding.tui_active_codex_thread_id,
            tui_session_adoption_pending: pending,
            last_used_at: input.metadata.last_codex_turn_at,
            conflict: false,
            app_server_status: health.app_server_status,
            hcodex_ingress_status: health.hcodex_ingress_status,
            runtime_readiness: health.runtime_readiness,
            runtime_health_source: health.source,
            heartbeat_last_checked_at: health.last_checked_at,
            heartbeat_last_error: health.last_error,
            session_broken_reason,
            recovery_hint,
            hcodex_path: launcher,
            hcodex_available: input.hcodex_available,
            recent_codex_sessions: input.recent_sessions,
        },
    )
}

/// Whether another view is about the same workspace.
fn shares_workspace(items: &Vec<ManagedWorkspaceView>, i: usize) -> (res: bool)
    requires
        i < items@.len(),
    ensures
        res == is_shared(ranking::list_views(items@), i as int),
{
    let ghost all = ranking::list_views(items@);
    let mut j: usize = 0;
    while j < items.len()
        invariant
            j <= items@.len(),
            i < items@.len(),
            all == ranking::list_views(items@),
            forall|k: int|
                0 <= k < j && k != i ==> (#[trigger] all[k]).workspace_cwd
                    != all[i as int].workspace_cwd,
        decreases items@.len() - j,
    {
        proof {
            assert(all[j as int] == items@[j as int]@);
            assert(all[i as int] == items@[i as int]@);
        }
        if j != i && text::same_text(
            items[j].workspace_cwd.as_str(),
            items[i].workspace_cwd.as_str(),
        ) {
            proof {
                assert(all[j as int].workspace_cwd == all[i as int].workspace_cwd);
            }
            return true;
        }
        j += 1;
    }
    false
}

/// Marks the views that are in conflict with another.
fn mark_conflicts(items: Vec<ManagedWorkspaceView>) -> (res: Vec<ManagedWorkspaceView>)
    ensures
        ranking::list_views(res@) == all_marked(ranking::list_views(items@)),
{
    let ghost all = ranking::list_views(items@);
    let mut flags: Vec<bool> = Vec::new();
    let mut i: usize = 0;
    while i < items.len()
        invariant
            i <= items@.len(),
            all == ranking::list_views(items@),
            flags@.len() == i,
            forall|k: int| 0 <= k < i ==> #[trigger] flags@[k] == is_shared(all, k),
        decreases items@.len() - i,
    {
        flags.push(shares_workspace(&items, i));
        i += 1;
    }
    let ghost wanted = all_marked(all);
    let mut rest = items;
    let mut res: Vec<ManagedWorkspaceView> = Vec::new();
    proof {
        assert(ranking::list_views(res@) =~= wanted.skip(all.len() as int));
        assert(rest@.len() == all.len());
    }
    while rest.len() > 0
        invariant
            rest@.len() <= all.len(),
            all == ranking::list_views(items@),
            rest@ =~= items@.take(rest@.len() as int),
            flags@.len() == all.len(),
            forall|k: int| 0 <= k < all.len() ==> #[trigger] flags@[k] == is_shared(all, k),
            wanted == all_marked(all),
            ranking::list_views(res@) =~= wanted.skip(rest@.len() as int),
        decreases rest@.len(),
    {
        let ghost n = rest@.len() as int;
        let mut item = rest.pop().unwrap();
        let at: usize = rest.len();
        proof {
            assert(item == items@[n - 1]);
            assert(all[n - 1] == item@);
        }
        if flags[at] {
            item.conflict = true;
            item.recovery_hint = Some(
                "Resolve the active workspace binding conflict first. Tray launch stays disabled until only one active binding remains.".to_owned(),
            );
        }
        proof {
            assert(item@ =~= wanted[n - 1]);
            assert(wanted.skip(n - 1) =~= seq![wanted[n - 1]] + wanted.skip(n));
        }
        let ghost before = res@;
        let ghost shown = item@;
        res.insert(0, item);
        proof {
            assert(ranking::list_views(res@) =~= seq![shown] + ranking::list_views(before));
        }
    }
    proof {
        assert(wanted.skip(0) =~= wanted);
    }
    res
}

/// What is shown of the workspaces of the active threads.
pub fn build_workspace_views(inputs: Vec<WorkspaceViewInput>) -> (res: Vec<ManagedWorkspaceView>)
    ensures
        ranking::list_views(res@) == workspace_views(inputs@),
{
    let ghost all = inputs@;
    let mut reversed: Vec<WorkspaceViewInput> = Vec::new();
    let mut rest = inputs;
    while rest.len() > 0
        invariant
            rest@.len() + reversed@.len() == all.len(),
            rest@ =~= all.take(rest@.len() as int),
            forall|k: int|
                0 <= k < reversed@.len() ==> #[trigger] reversed@[k] == all[all.len() - 1 - k],
        decreases rest@.len(),
    {
        reversed.push(rest.pop().unwrap());
    }
    let mut items: Vec<ManagedWorkspaceView> = Vec::new();
    proof {
        assert(ranking::list_views(items@) =~= workspace_items(all.take(0)));
    }
    while reversed.len() > 0
        invariant
            reversed@.len() <= all.len(),
            forall|k: int|
                0 <= k < reversed@.len() ==> #[trigger] reversed@[k] == all[all.len() - 1 - k],
            ranking::list_views(items@) == workspace_items(all.take(all.len() - reversed@.len())),
        decreases reversed@.len(),
    {
        let ghost done = all.len() - reversed@.len();
        let input = reversed.pop().unwrap();
        proof {
            let next = all.take(done + 1);
            assert(next.drop_last() =~= all.take(done));
            assert(next.last() == input);
        }
        let ghost before = items@;
        match workspace_view(input) {
            Some(view) => {
                items.push(view);
                proof {
                    assert(ranking::list_views(items@) =~= ranking::list_views(before).push(view@));
                }
            },
            None => {},
        }
    }
    proof {
        assert(all.take(all.len() as int) =~= all);
    }
    ranking::sort_ranked(mark_conflicts(items))
}

/// The health of the runtime as a whole.
#[derive(Debug, Clone)]
pub struct RuntimeHealthView {
    pub management_bind_addr: String,
    pub broken_threads: usize,
    pub running_workspaces: usize,
    pub conflicted_workspaces: usize,
    pub ready_workspaces: usize,
    pub degraded_workspaces: usize,
    pub unavailable_workspaces: usize,
    pub app_server_status: &'static str,
    pub hcodex_ingress_status: &'static str,
    pub runtime_readiness: &'static str,
    pub recovery_hint: Option<String>,
    pub runtime_owner: RuntimeOwnerStatus,
    pub managed_codex: ManagedCodexView,
}

/// The texts of a list.
pub open spec fn str_views(list: Seq<&str>) -> Seq<Seq<char>> {
    Seq::new(list.len(), |i: int| list[i]@)
}

/// The texts of a list, where there are any.
pub open spec fn opt_str_views(list: Seq<Option<&str>>) -> Seq<Option<Seq<char>>> {
    Seq::new(list.len(), |i: int| text::opt_str_view(list[i]))
}

/// How many of a list are of a kind.
pub open spec fn tally<T>(list: Seq<T>, is_counted: spec_fn(T) -> bool) -> nat
    decreases list.len(),
{
    if list.len() == 0 {
        0
    } else {
        tally(list.drop_last(), is_counted) + if is_counted(list.last()) {
            1nat
        } else {
            0
        }
    }
}

/// A surface runs where it runs in every workspace.
pub open spec fn running_status_of(statuses: Seq<Seq<char>>) -> Seq<char> {
    if statuses.len() == 0 {
        "missing"@
    } else if forall|i: int| 0 <= i < statuses.len() ==> #[trigger] statuses[i] == "running"@ {
        "running"@
    } else {
        "unavailable"@
    }
}

/// Whether a readiness counts as degraded.
pub open spec fn is_degraded(readiness: Seq<char>) -> bool {
    readiness == "pending_adoption"@ || readiness == "degraded"@
}

/// Whether a readiness counts as unavailable.
pub open spec fn is_unavailable(readiness: Seq<char>) -> bool {
    readiness != "ready"@ && !is_degraded(readiness)
}

/// The readiness of the whole is that of the least ready workspace.
pub open spec fn readiness_of(statuses: Seq<Seq<char>>) -> Seq<char> {
    if statuses.len() == 0 {
        "missing"@
    } else if exists|i: int| 0 <= i < statuses.len() && #[trigger] is_unavailable(statuses[i]) {
        "unavailable"@
    } else if exists|i: int| 0 <= i < statuses.len() && #[trigger] is_degraded(statuses[i]) {
        "degraded"@
    } else {
        "ready"@
    }
}

/// The first hint that is given.
pub open spec fn first_hint(hints: Seq<Option<Seq<char>>>) -> Option<Seq<char>>
    decreases hints.len(),
{
    if hints.len() == 0 {
        None
    } else if hints[0] is Some {
        hints[0]
    } else {
        first_hint(hints.skip(1))
    }
}

/// The hint that is shown for the runtime as a whole.
pub open spec fn runtime_hint_of(
    owner: OwnerStatusModel,
    hints: Seq<Option<Seq<char>>>,
    has_conflicts: bool,
) -> Option<Seq<char>> {
    if has_conflicts {
        Some(
            "At least one workspace has multiple active bindings. Resolve conflicts in Managed Workspaces before trusting tray launch actions."@,
        )
    } else if owner.state == "error"@ {
        Some(
            "Desktop runtime owner is unhealthy. Run Reconcile Runtime Owner from this page."@
                + match owner.last_error {
                Some(error) => " Last owner error: "@ + error,
                None => Seq::empty(),
            },
        )
    } else {
        first_hint(hints)
    }
}

/// The status of a surface over all workspaces.
pub fn aggregate_running_status(statuses: &[&str]) -> (res: &'static str)
    ensures
        res@ == running_status_of(str_views(statuses@)),
{
    let ghost all = str_views(statuses@);
    let mut i: usize = 0;
    while i < statuses.len()
        invariant
            i <= statuses@.len(),
            all == str_views(statuses@),
            forall|k: int| 0 <= k < i ==> #[trigger] all[k] == "running"@,
        decreases statuses@.len() - i,
    {
        if !text::same_text(statuses[i], "running") {
            proof {
                assert(all[i as int] != "running"@);
            }
            return "unavailable";
        }
        i += 1;
    }
    if statuses.len() == 0 {
        "missing"
    } else {
        "running"
    }
}

/// The readiness over all workspaces.
pub fn aggregate_runtime_readiness(statuses: &[&str]) -> (res: &'static str)
    ensures
        res@ == readiness_of(str_views(statuses@)),
{
    let ghost all = str_views(statuses@);
    let mut has_degraded = false;
    let mut i: usize = 0;
    while i < statuses.len()
        invariant
            i <= statuses@.len(),
            all == str_views(statuses@),
            forall|k: int| 0 <= k < i ==> !#[trigger] is_unavailable(all[k]),
            has_degraded <==> exists|k: int| 0 <= k < i && #[trigger] is_degraded(all[k]),
        decreases statuses@.len() - i,
    {
        let status = statuses[i];
        proof {
            assert(all[i as int] == status@);
        }
        if text::same_text(status, "pending_adoption") || text::same_text(status, "degraded") {
            has_degraded = true;
            proof {
                assert(is_degraded(all[i as int]));
            }
        } else if !text::same_text(status, "ready") {
            proof {
                assert(is_unavailable(all[i as int]));
            }
            return "unavailable";
        }
        i += 1;
    }
    if statuses.len() == 0 {
        "missing"
    } else if has_degraded {
        "degraded"
    } else {
        "ready"
    }
}

/// The hint that is shown for the runtime as a whole.
pub fn runtime_recovery_hint(
    runtime_owner: &RuntimeOwnerStatus,
    workspace_hints: &[Option<&str>],
    has_conflicts: bool,
) -> (res: Option<String>)
    ensures
        text::opt_view(res) == runtime_hint_of(
            runtime_owner@,
            opt_str_views(workspace_hints@),
            has_conflicts,
        ),
{
    if has_conflicts {
        return Some(
            "At least one workspace has multiple active bindings. Resolve conflicts in Managed Workspaces before trusting tray launch actions.".to_owned(),
        );
    }
    if text::same_text(runtime_owner.state, "error") {
        let mut hint: String =
            "Desktop runtime owner is unhealthy. Run Reconcile Runtime Owner from this page.".to_owned();
        match &runtime_owner.last_error {
            Some(error) => {
                hint.push_str(" Last owner error: ");
                hint.push_str(error.as_str());
                proof {
                    assert(hint@
                        =~= "Desktop runtime owner is unhealthy. Run Reconcile Runtime Owner from this page."@
                        + (" Last owner error: "@ + error@));
                }
            },
            None => {
                proof {
                    assert(hint@ =~= hint@ + Seq::<char>::empty());
                }
            },
        }
        return Some(hint);
    }
    let ghost all = opt_str_views(workspace_hints@);
    let mut i: usize = 0;
    proof {
        assert(all.skip(0) =~= all);
    }
    while i < workspace_hints.len()
        invariant
            i <= workspace_hints@.len(),
            !has_conflicts,
            runtime_owner@.state != "error"@,
            all == opt_str_views(workspace_hints@),
            first_hint(all) == first_hint(all.skip(i as int)),
        decreases workspace_hints@.len() - i,
    {
        proof {
            assert(all.skip(i as int)[0] == text::opt_str_view(workspace_hints@[i as int]));
            assert(all.skip(i as int).skip(1) =~= all.skip(i + 1));
        }
        match workspace_hints[i] {
            Some(hint) => return Some(hint.to_owned()),
            None => {},
        }
        i += 1;
    }
    None
}

/// The health of the runtime, from what is shown of its workspaces.
pub fn build_runtime_health(
    management_bind_addr: String,
    workspaces: &[ManagedWorkspaceView],
    runtime_owner: RuntimeOwnerStatus,
    managed_codex: ManagedCodexView,
) -> (res: RuntimeHealthView)
    ensures
        res.management_bind_addr == management_bind_addr,
        res.broken_threads == tally(
            ranking::list_views(workspaces@),
            |w: WorkspaceModel| w.binding_status == "broken"@,
        ),
        res.running_workspaces == tally(
            ranking::list_views(workspaces@),
            |w: WorkspaceModel| w.run_status == "running"@,
        ),
        res.conflicted_workspaces == tally(
            ranking::list_views(workspaces@),
            |w: WorkspaceModel| w.conflict,
        ),
        res.ready_workspaces == tally(
            ranking::list_views(workspaces@),
            |w: WorkspaceModel| w.runtime_readiness == "ready"@,
        ),
        res.degraded_workspaces == tally(
            ranking::list_views(workspaces@),
            |w: WorkspaceModel| is_degraded(w.runtime_readiness),
        ),
        res.unavailable_workspaces == tally(
            ranking::list_views(workspaces@),
            |w: WorkspaceModel| is_unavailable(w.runtime_readiness),
        ),
        res.app_server_status@ == running_status_of(
            ranking::list_views(workspaces@).map_values(|w: WorkspaceModel| w.app_server_status),
        ),
        res.hcodex_ingress_status@ == running_status_of(
            ranking::list_views(workspaces@).map_values(|w: WorkspaceModel| w.hcodex_ingress_status),
        ),
        res.runtime_readiness@ == readiness_of(
            ranking::list_views(workspaces@).map_values(|w: WorkspaceModel| w.runtime_readiness),
        ),
        text::opt_view(res.recovery_hint) == runtime_hint_of(
            runtime_owner@,
            ranking::list_views(workspaces@).map_values(|w: WorkspaceModel| w.recovery_hint),
            exists|i: int| 0 <= i < workspaces@.len() && (#[trigger] workspaces@[i]).conflict,
        ),
        res.runtime_owner == runtime_owner,
        res.managed_codex == managed_codex,
{
    let ghost all = ranking::list_views(workspaces@);
    let ghost is_broken = |w: WorkspaceModel| w.binding_status == "broken"@;
    let ghost is_running = |w: WorkspaceModel| w.run_status == "running"@;
    let ghost is_conflicted = |w: WorkspaceModel| w.conflict;
    let ghost is_ready = |w: WorkspaceModel| w.runtime_readiness == "ready"@;
    let ghost counts_degraded = |w: WorkspaceModel| is_degraded(w.runtime_readiness);
    let ghost counts_unavailable = |w: WorkspaceModel| is_unavailable(w.runtime_readiness);
    let mut broken_threads: usize = 0;
    let mut running_workspaces: usize = 0;
    let mut conflicted_workspaces: usize = 0;
    let mut ready_workspaces: usize = 0;
    let mut degraded_workspaces: usize = 0;
    let mut unavailable_workspaces: usize = 0;
    let mut has_conflicts = false;
    let mut servers: Vec<&str> = Vec::new();
    let mut ingresses: Vec<&str> = Vec::new();
    let mut readiness: Vec<&str> = Vec::new();
    let mut hints: Vec<Option<&str>> = Vec::new();
    let mut i: usize = 0;
    while i < workspaces.len()
        invariant
            i <= workspaces@.len(),
            all == ranking::list_views(workspaces@),
            broken_threads <= i,
            running_workspaces <= i,
            conflicted_workspaces <= i,
            ready_workspaces <= i,
            degraded_workspaces <= i,
            unavailable_workspaces <= i,
            is_broken == (|w: WorkspaceModel| w.binding_status == "broken"@),
            is_running == (|w: WorkspaceModel| w.run_status == "running"@),
            is_conflicted == (|w: WorkspaceModel| w.conflict),
            is_ready == (|w: WorkspaceModel| w.runtime_readiness == "ready"@),
            counts_degraded == (|w: WorkspaceModel| is_degraded(w.runtime_readiness)),
            counts_unavailable == (|w: WorkspaceModel| is_unavailable(w.runtime_readiness)),
            broken_threads == tally(all.take(i as int), is_broken),
            running_workspaces == tally(all.take(i as int), is_running),
            conflicted_workspaces == tally(all.take(i as int), is_conflicted),
            ready_workspaces == tally(all.take(i as int), is_ready),
            degraded_workspaces == tally(all.take(i as int), counts_degraded),
            unavailable_workspaces == tally(all.take(i as int), counts_unavailable),
            has_conflicts <==> exists|k: int|
                0 <= k < i && (#[trigger] workspaces@[k]).conflict,
            servers@.len() == i,
            ingresses@.len() == i,
            readiness@.len() == i,
            hints@.len() == i,
            forall|k: int| 0 <= k < i ==> (#[trigger] servers@[k])@ == all[k].app_server_status,
            forall|k: int|
                0 <= k < i ==> (#[trigger] ingresses@[k])@ == all[k].hcodex_ingress_status,
            forall|k: int| 0 <= k < i ==> (#[trigger] readiness@[k])@ == all[k].runtime_readiness,
            forall|k: int|
                0 <= k < i ==> text::opt_str_view(#[trigger] hints@[k]) == all[k].recovery_hint,
        decreases workspaces@.len() - i,
    {
        let workspace = &workspaces[i];
        proof {
            let next = all.take(i + 1);
            assert(next.drop_last() =~= all.take(i as int));
            assert(next.last() == workspace@);
            assert(all[i as int] == workspace@);
        }
        if text::same_text(workspace.binding_status, "broken") {
            broken_threads += 1;
        }
        if text::same_text(workspace.run_status, "running") {
            running_workspaces += 1;
        }
        if workspace.conflict {
            conflicted_workspaces += 1;
            has_conflicts = true;
        }
        if text::same_text(workspace.runtime_readiness, "ready") {
            proof {
                reveal_strlit("ready");
                reveal_strlit("degraded");
                reveal_strlit("pending_adoption");
                assert("ready"@.len() != "degraded"@.len());
                assert("ready"@.len() != "pending_adoption"@.len());
            }
            ready_workspaces += 1;
        } else if text::same_text(workspace.runtime_readiness, "degraded") || text::same_text(
            workspace.runtime_readiness,
            "pending_adoption",
        ) {
            degraded_workspaces += 1;
        } else {
            unavailable_workspaces += 1;
        }
        servers.push(workspace.app_server_status);
        ingresses.push(workspace.hcodex_ingress_status);
        readiness.push(workspace.runtime_readiness);
        hints.push(text::as_deref(&workspace.recovery_hint));
        i += 1;
    }
    proof {
        assert(all.take(all.len() as int) =~= all);
        assert(str_views(servers@) =~= all.map_values(|w: WorkspaceModel| w.app_server_status));
        assert(str_views(ingresses@) =~= all.map_values(
            |w: WorkspaceModel| w.hcodex_ingress_status,
        ));
        assert(str_views(readiness@) =~= all.map_values(|w: WorkspaceModel| w.runtime_readiness));
        assert(opt_str_views(hints@) =~= all.map_values(|w: WorkspaceModel| w.recovery_hint));
    }
    let app_server_status = aggregate_running_status(servers.as_slice());
    let hcodex_ingress_status = aggregate_running_status(ingresses.as_slice());
    let runtime_readiness = aggregate_runtime_readiness(readiness.as_slice());
    let recovery_hint = runtime_recovery_hint(&runtime_owner, hints.as_slice(), has_conflicts);
    RuntimeHealthView {
        management_bind_addr,
        broken_threads,
        running_workspaces,
        conflicted_workspaces,
        ready_workspaces,
        degraded_workspaces,
        unavailable_workspaces,
        app_server_status,
        hcodex_ingress_status,
        runtime_readiness,
        recovery_hint,
        runtime_owner,
        managed_codex,
    }
}

/// Every workspace is counted once: as ready, as degraded or as unavailable.
pub proof fn law_readiness_counts(workspaces: Seq<WorkspaceModel>)
    ensures
        tally(workspaces, |w: WorkspaceModel| w.runtime_readiness == "ready"@) + tally(
            workspaces,
            |w: WorkspaceModel| is_degraded(w.runtime_readiness),
        ) + tally(workspaces, |w: WorkspaceModel| is_unavailable(w.runtime_readiness))
            == workspaces.len(),
    decreases workspaces.len(),
{
    reveal_strlit("ready");
    reveal_strlit("degraded");
    reveal_strlit("pending_adoption");
    assert("ready"@.len() != "degraded"@.len());
    assert("ready"@.len() != "pending_adoption"@.len());
    if workspaces.len() > 0 {
        law_readiness_counts(workspaces.drop_last());
    }
}

/// The runtime is ready exactly where it has workspaces and each of them is ready.
pub proof fn law_ready_means_all_ready(statuses: Seq<Seq<char>>)
    ensures
        readiness_of(statuses) == "ready"@ <==> statuses.len() > 0 && forall|i: int|
            0 <= i < statuses.len() ==> #[trigger] statuses[i] == "ready"@,
{
    reveal_strlit("ready");
    reveal_strlit("degraded");
    reveal_strlit("missing");
    reveal_strlit("unavailable");
    reveal_strlit("pending_adoption");
    assert("ready"@.len() == 5);
    assert("missing"@.len() == 7);
    assert("degraded"@.len() == 8);
    assert("unavailable"@.len() == 11);
    assert("pending_adoption"@.len() == 16);
    if readiness_of(statuses) == "ready"@ {
        assert forall|i: int| 0 <= i < statuses.len() implies #[trigger] statuses[i]
            == "ready"@ by {
            assert(!is_unavailable(statuses[i]));
            assert(!is_degraded(statuses[i]));
        }
    }
}

/// What is shown of a thread.
#[derive(Debug, Clone)]
pub struct ThreadStateView {
    pub thread_key: String,
    pub title: Option<String>,
    pub chat_id: i64,
    pub message_thread_id: Option<i32>,
    pub workspace_cwd: Option<String>,
    pub workspace_execution_mode: Option<ExecutionMode>,
    pub current_execution_mode: Option<ExecutionMode>,
    pub current_approval_policy: Option<String>,
    pub current_sandbox_policy: Option<String>,
    pub lifecycle_status: &'static str,
    pub binding_status: &'static str,
    pub run_status: &'static str,
    pub run_phase: &'static str,
    pub current_codex_thread_id: Option<String>,
    pub tui_active_codex_thread_id: Option<String>,
    pub tui_session_adoption_pending: bool,
    pub session_broken_reason: Option<String>,
    pub last_verified_at: Option<String>,
    pub last_codex_turn_at: Option<String>,
    pub archived_at: Option<String>,
    pub last_used_at: Option<String>,
}

/// The model of what is shown of a thread.
#[verifier::ext_equal]
pub struct ThreadViewModel {
    pub thread_key: Seq<char>,
    pub title: Option<Seq<char>>,
    pub chat_id: i64,
    pub message_thread_id: Option<i32>,
    pub workspace_cwd: Option<Seq<char>>,
    pub workspace_execution_mode: Option<ExecutionMode>,
    pub current_execution_mode: Option<ExecutionMode>,
    pub current_approval_policy: Option<Seq<char>>,
    pub current_sandbox_policy: Option<Seq<char>>,
    pub lifecycle_status: Seq<char>,
    pub binding_status: Seq<char>,
    pub run_status: Seq<char>,
    pub run_phase: Seq<char>,
    pub current_codex_thread_id: Option<Seq<char>>,
    pub tui_active_codex_thread_id: Option<Seq<char>>,
    pub tui_session_adoption_pending: bool,
    pub session_broken_reason: Option<Seq<char>>,
    pub last_verified_at: Option<Seq<char>>,
    pub last_codex_turn_at: Option<Seq<char>>,
    pub archived_at: Option<Seq<char>>,
    pub last_used_at: Option<Seq<char>>,
}

impl View for ThreadStateView {
    type V = ThreadViewModel;

    open spec fn view(&self) -> ThreadViewModel {
        ThreadViewModel {
            thread_key: self.thread_key@,
            title: text::opt_view(self.title),
            chat_id: self.chat_id,
            message_thread_id: self.message_thread_id,
            workspace_cwd: text::opt_view(self.workspace_cwd),
            workspace_execution_mode: self.workspace_execution_mode,
            current_execution_mode: self.current_execution_mode,
            current_approval_policy: text::opt_view(self.current_approval_policy),
            current_sandbox_policy: text::opt_view(self.current_sandbox_policy),
            lifecycle_status: self.lifecycle_status@,
            binding_status: self.binding_status@,
            run_status: self.run_status@,
            run_phase: self.run_phase@,
            current_codex_thread_id: text::opt_view(self.current_codex_thread_id),
            tui_active_codex_thread_id: text::opt_view(self.tui_active_codex_thread_id),
            tui_session_adoption_pending: self.tui_session_adoption_pending,
            session_broken_reason: text::opt_view(self.session_broken_reason),
            last_verified_at: text::opt_view(self.last_verified_at),
            last_codex_turn_at: text::opt_view(self.last_codex_turn_at),
            archived_at: text::opt_view(self.archived_at),
            last_used_at: text::opt_view(self.last_used_at),
        }
    }
}

impl Ranked for ThreadStateView {
    open spec fn before(a: ThreadViewModel, b: ThreadViewModel) -> bool {
        text::text_before(a.thread_key, b.thread_key)
    }

    fn ranks_before(&self, other: &Self) -> (res: bool) {
        text::comes_before(self.thread_key.as_str(), other.thread_key.as_str())
    }
}

/// What was read of an active thread. The mode is that of its workspace; it is not looked at
/// for a thread without one.
pub struct ThreadViewInput {
    pub metadata: ThreadMetadata,
    pub binding: Option<SessionBinding>,
    pub workspace_execution_mode: ExecutionMode,
    pub resolved_state: Result<ResolvedThreadState, String>,
}

/// What is shown of a thread.
pub open spec fn thread_item(input: ThreadViewInput) -> ThreadViewModel {
    let metadata = input.metadata@;
    let binding = repository::opt_binding(input.binding);
    ThreadViewModel {
        thread_key: metadata.thread_key,
        title: metadata.title,
        chat_id: metadata.chat_id,
        message_thread_id: metadata.message_thread_id,
        workspace_cwd: match binding {
            Some(b) => b.workspace_cwd,
            None => None,
        },
        workspace_execution_mode: match binding {
            Some(b) => if b.workspace_cwd is Some {
                Some(input.workspace_execution_mode)
            } else {
                None
            },
            None => None,
        },
        current_execution_mode: match binding {
            Some(b) => b.current_execution_mode,
            None => None,
        },
        current_approval_policy: match binding {
            Some(b) => b.current_approval_policy,
            None => None,
        },
        current_sandbox_policy: match binding {
            Some(b) => b.current_sandbox_policy,
            None => None,
        },
        lifecycle_status: thread_state::lifecycle_of(metadata.status).name(),
        binding_status: thread_state::binding_status_of(binding).name(),
        run_status: shown_run_status(input.resolved_state),
        run_phase: shown_run_phase(input.resolved_state),
        current_codex_thread_id: match binding {
            Some(b) => b.current_codex_thread_id,
            None => None,
        },
        tui_active_codex_thread_id: match binding {
            Some(b) => b.tui_active_codex_thread_id,
            None => None,
        },
        tui_session_adoption_pending: match binding {
            Some(b) => b.tui_session_adoption_pending,
            None => false,
        },
        session_broken_reason: broken_reason_of(metadata, binding),
        last_verified_at: match binding {
            Some(b) => b.last_verified_at,
            None => None,
        },
        last_codex_turn_at: metadata.last_codex_turn_at,
        archived_at: metadata.archived_at,
        last_used_at: metadata.last_codex_turn_at,
    }
}

/// What is shown of a thread.
fn thread_view(input: ThreadViewInput) -> (res: ThreadStateView)
    ensures
        res@ == thread_item(input),
{
    let binding_ref = match &input.binding {
        Some(binding) => Some(binding),
        None => None,
    };
    let lifecycle_status = thread_state::resolve_lifecycle_status(&input.metadata).as_str();
    let binding_status = thread_state::resolve_binding_status(&input.metadata, binding_ref).as_str();
    let session_broken_reason = canonical_binding_broken_reason(&input.metadata, binding_ref);
    let (run_status, run_phase) = match input.resolved_state {
        Ok(state) => (state.run_status.as_str(), state.run_phase.as_str()),
        Err(_) => ("unavailable", "unavailable"),
    };
    let last_used_at = text::clone_opt(&input.metadata.last_codex_turn_at);
    let blank = ThreadStateView {
        thread_key: input.metadata.thread_key,
        title: input.metadata.title,
        chat_id: input.metadata.chat_id,
        message_thread_id: input.metadata.message_thread_id,
        workspace_cwd: None,
        workspace_execution_mode: None,
        current_execution_mode: None,
        current_approval_policy: None,
        current_sandbox_policy: None,
        lifecycle_status,
        binding_status,
        run_status,
        run_phase,
        current_codex_thread_id: None,
        tui_active_codex_thread_id: None,
        tui_session_adoption_pending: false,
        session_broken_reason,
        last_verified_at: None,
        last_codex_turn_at: input.metadata.last_codex_turn_at,
        archived_at: input.metadata.archived_at,
        last_used_at,
    };
    match input.binding {
        Some(binding) => ThreadStateView {
            workspace_execution_mode: if binding.workspace_cwd.is_some() {
                Some(input.workspace_execution_mode)
            } else {
                None
            },
            workspace_cwd: binding.workspace_cwd,
            current_execution_mode: binding.current_execution_mode,
            current_approval_policy: binding.current_approval_policy,
            current_sandbox_policy: binding.current_sandbox_policy,
            current_codex_thread_id: binding.current_codex_thread_id,
            tui_active_codex_thread_id: binding.tui_active_codex_thread_id,
            tui_session_adoption_pending: binding.tui_session_adoption_pending,
            last_verified_at: binding.last_verified_at,
            ..blank
        },
        None => blank,
    }
}

/// What is shown of the active threads, in the order of their keys.
pub fn build_thread_views(inputs: Vec<ThreadViewInput>) -> (res: Vec<ThreadStateView>)
    ensures
        ranking::list_views(res@) == ranking::stable_sorted(
            inputs@.map_values(|input: ThreadViewInput| thread_item(input)),
            |a: ThreadViewModel, b: ThreadViewModel| ThreadStateView::before(a, b),
        ),
{
    let ghost all = inputs@.map_values(|input: ThreadViewInput| thread_item(input));
    let mut rest = inputs;
    let mut views: Vec<ThreadStateView> = Vec::new();
    proof {
        assert(ranking::list_views(views@) =~= all.skip(all.len() as int));
    }
    while rest.len() > 0
        invariant
            rest@.len() <= inputs@.len(),
            rest@ =~= inputs@.take(rest@.len() as int),
            all == inputs@.map_values(|input: ThreadViewInput| thread_item(input)),
            ranking::list_views(views@) =~= all.skip(rest@.len() as int),
        decreases rest@.len(),
    {
        let ghost n = rest@.len() as int;
        let input = rest.pop().unwrap();
        let ghost before = views@;
        let view = thread_view(input);
        let ghost shown = view@;
        views.insert(0, view);
        proof {
            assert(all[n - 1] == shown);
            assert(ranking::list_views(views@) =~= seq![shown] + ranking::list_views(before));
            assert(all.skip(n - 1) =~= seq![all[n - 1]] + all.skip(n));
        }
    }
    proof {
        assert(all.skip(0) =~= all);
    }
    ranking::sort_ranked(views)
}

/// What is shown of an archived thread.
#[derive(Debug, Clone)]
pub struct ArchivedThreadView {
    pub thread_key: String,
    pub title: Option<String>,
    pub workspace_cwd: Option<String>,
    pub archived_at: Option<String>,
    pub previous_message_thread_ids: Vec<i32>,
}

/// The model of what is shown of an archived thread.
#[verifier::ext_equal]
pub struct ArchivedModel {
    pub thread_key: Seq<char>,
    pub title: Option<Seq<char>>,
    pub workspace_cwd: Option<Seq<char>>,
    pub archived_at: Option<Seq<char>>,
    pub previous_message_thread_ids: Seq<i32>,
}

impl View for ArchivedThreadView {
    type V = ArchivedModel;

    open spec fn view(&self) -> ArchivedModel {
        ArchivedModel {
            thread_key: self.thread_key@,
            title: text::opt_view(self.title),
            workspace_cwd: text::opt_view(self.workspace_cwd),
            archived_at: text::opt_view(self.archived_at),
            previous_message_thread_ids: self.previous_message_thread_ids@,
        }
    }
}

/// What is shown of an archived thread.
pub open spec fn archived_item(metadata: MetadataModel, binding: Option<BindingModel>) -> ArchivedModel {
    ArchivedModel {
        thread_key: metadata.thread_key,
        title: metadata.title,
        workspace_cwd: match binding {
            Some(b) => b.workspace_cwd,
            None => None,
        },
        archived_at: metadata.archived_at,
        previous_message_thread_ids: metadata.previous_message_thread_ids,
    }
}

/// What is shown of the archived threads, in the order given.
pub fn build_archived_thread_views(
    archived: Vec<(ThreadMetadata, Option<SessionBinding>)>,
) -> (res: Vec<ArchivedThreadView>)
    ensures
        res@.len() == archived@.len(),
        forall|i: int|
            0 <= i < res@.len() ==> (#[trigger] res@[i])@ == archived_item(
                archived@[i].0@,
                repository::opt_binding(archived@[i].1),
            ),
{
    let mut rest = archived;
    let mut res: Vec<ArchivedThreadView> = Vec::new();
    while rest.len() > 0
        invariant
            rest@.len() + res@.len() == archived@.len(),
            rest@ =~= archived@.take(rest@.len() as int),
            forall|i: int|
                0 <= i < res@.len() ==> (#[trigger] res@[i])@ == archived_item(
                    archived@[rest@.len() + i].0@,
                    repository::opt_binding(archived@[rest@.len() + i].1),
                ),
        decreases rest@.len(),
    {
        let ghost n = rest@.len() as int;
        let ghost before = res@;
        let (metadata, binding) = rest.pop().unwrap();
        let view = ArchivedThreadView {
            thread_key: metadata.thread_key,
            title: metadata.title,
            workspace_cwd: match binding {
                Some(binding) => binding.workspace_cwd,
                None => None,
            },
            archived_at: metadata.archived_at,
            previous_message_thread_ids: metadata.previous_message_thread_ids,
        };
        res.insert(0, view);
        proof {
            assert(archived@[n - 1] == (metadata, binding));
            assert forall|i: int| 0 <= i < res@.len() implies (#[trigger] res@[i])@
                == archived_item(
                archived@[n - 1 + i].0@,
                repository::opt_binding(archived@[n - 1 + i].1),
            ) by {
                if i > 0 {
                    assert(res@[i] == before[i - 1]);
                }
            }
        }
    }
    res
}

/// The order by path is an order.
proof fn lemma_path_order()
    ensures
        ranking::is_order(
            |a: WorkspaceModel, b: WorkspaceModel| ManagedWorkspaceView::before(a, b),
        ),
{
    let before = |a: WorkspaceModel, b: WorkspaceModel| ManagedWorkspaceView::before(a, b);
    assert forall|a: WorkspaceModel, b: WorkspaceModel| #[trigger] before(a, b) implies !before(
        b,
        a,
    ) by {
        text::lemma_text_order(a.workspace_cwd, b.workspace_cwd);
    }
    assert forall|a: WorkspaceModel, b: WorkspaceModel, c: WorkspaceModel|
        !#[trigger] before(b, a) && !#[trigger] before(c, b) implies !before(c, a) by {
        text::lemma_text_order(a.workspace_cwd, b.workspace_cwd);
        text::lemma_text_order(b.workspace_cwd, c.workspace_cwd);
        text::lemma_text_order(a.workspace_cwd, c.workspace_cwd);
        if a.workspace_cwd != b.workspace_cwd && b.workspace_cwd != c.workspace_cwd {
            text::lemma_text_order_transitive(a.workspace_cwd, b.workspace_cwd, c.workspace_cwd);
        }
    }
}

/// The workspaces are shown in the order of their paths, and none is lost or added.
pub proof fn law_workspace_views_are_ordered(inputs: Seq<WorkspaceViewInput>)
    ensures
        ranking::is_sorted(
            workspace_views(inputs),
            |a: WorkspaceModel, b: WorkspaceModel| ManagedWorkspaceView::before(a, b),
        ),
        workspace_views(inputs).to_multiset() == all_marked(workspace_items(inputs)).to_multiset(),
{
    let before = |a: WorkspaceModel, b: WorkspaceModel| ManagedWorkspaceView::before(a, b);
    lemma_path_order();
    ranking::law_sorted_is_sorted(all_marked(workspace_items(inputs)), before);
    ranking::law_sorted_is_permutation(all_marked(workspace_items(inputs)), before);
}

/// A workspace is shown in conflict exactly where another active thread is bound to it, and
/// the hint is then to resolve the conflict.
pub proof fn law_conflict_is_shared_binding(inputs: Seq<WorkspaceViewInput>, i: int)
    requires
        0 <= i < workspace_items(inputs).len(),
    ensures
        all_marked(workspace_items(inputs))[i].conflict <==> is_shared(workspace_items(inputs), i),
        all_marked(workspace_items(inputs))[i].conflict ==> all_marked(
            workspace_items(inputs),
        )[i].recovery_hint == Some(conflict_hint()),
{
    lemma_items_start_without_conflict(inputs, i);
}

/// No item is in conflict before conflicts are looked for.
proof fn lemma_items_start_without_conflict(inputs: Seq<WorkspaceViewInput>, i: int)
    requires
        0 <= i < workspace_items(inputs).len(),
    ensures
        !workspace_items(inputs)[i].conflict,
    decreases inputs.len(),
{
    let before = workspace_items(inputs.drop_last());
    if i < before.len() {
        lemma_items_start_without_conflict(inputs.drop_last(), i);
        assert(workspace_items(inputs)[i] == before[i]);
    }
}

/// Which session a launch opens.
#[derive(Debug, Clone, Copy, PartialEq, Eq, Structural)]
pub enum LaunchLocalSessionTarget {
    New,
    ContinueCurrent,
    Resume,
}

impl LaunchLocalSessionTarget {
    /// The name of the target.
    pub open spec fn name(self) -> Seq<char> {
        match self {
            LaunchLocalSessionTarget::New => "new"@,
            LaunchLocalSessionTarget::ContinueCurrent => "continue_current"@,
            LaunchLocalSessionTarget::Resume => "resume"@,
        }
    }

    /// The name of the target.
    pub fn as_str(self) -> (res: &'static str)
        ensures
            res@ == self.name(),
    {
        match self {
            LaunchLocalSessionTarget::New => "new",
            LaunchLocalSessionTarget::ContinueCurrent => "continue_current",
            LaunchLocalSessionTarget::Resume => "resume",
        }
    }
}

/// Whether an interrupt was requested now or before.
#[derive(Debug, Clone, Copy, PartialEq, Eq, Structural)]
pub enum InterruptRunningTurnState {
    Requested,
    AlreadyRequested,
}

/// A request to control the runtime of a thread.
#[derive(Debug, Clone, PartialEq, Eq)]
pub enum RuntimeControlActionRequest {
    StartFreshSession,
    RepairSessionBinding,
    SetWorkspaceExecutionMode { execution_mode: ExecutionMode },
    LaunchLocalSession { target: LaunchLocalSessionTarget, session_id: Option<String> },
    SetThreadCollaborationMode { mode: CollaborationMode },
    InterruptRunningTurn,
}

impl RuntimeControlActionRequest {
    /// The action that is asked for.
    pub open spec fn kind(self) -> RuntimeControlAction {
        match self {
            RuntimeControlActionRequest::StartFreshSession => {
                RuntimeControlAction::StartFreshSession
            },
            RuntimeControlActionRequest::RepairSessionBinding => {
                RuntimeControlAction::RepairSessionBinding
            },
            RuntimeControlActionRequest::SetWorkspaceExecutionMode { execution_mode } => {
                RuntimeControlAction::SetWorkspaceExecutionMode
            },
            RuntimeControlActionRequest::LaunchLocalSession { target, session_id } => {
                RuntimeControlAction::LaunchLocalSession
            },
            RuntimeControlActionRequest::SetThreadCollaborationMode { mode } => {
                RuntimeControlAction::SetThreadCollaborationMode
            },
            RuntimeControlActionRequest::InterruptRunningTurn => {
                RuntimeControlAction::InterruptRunningTurn
            },
        }
    }

    /// Whether the request is complete: to resume a session, it must be named.
    pub open spec fn is_valid(self) -> bool {
        match self {
            RuntimeControlActionRequest::LaunchLocalSession { target, session_id } => target
                == LaunchLocalSessionTarget::Resume ==> text::filled(
                text::opt_view(session_id),
            ) is Some,
            _ => true,
        }
    }

    /// The action that is asked for.
    pub fn action(&self) -> (res: RuntimeControlAction)
        ensures
            res == self.kind(),
    {
        match self {
            RuntimeControlActionRequest::StartFreshSession => {
                RuntimeControlAction::StartFreshSession
            },
            RuntimeControlActionRequest::RepairSessionBinding => {
                RuntimeControlAction::RepairSessionBinding
            },
            RuntimeControlActionRequest::SetWorkspaceExecutionMode { .. } => {
                RuntimeControlAction::SetWorkspaceExecutionMode
            },
            RuntimeControlActionRequest::LaunchLocalSession { .. } => {
                RuntimeControlAction::LaunchLocalSession
            },
            RuntimeControlActionRequest::SetThreadCollaborationMode { .. } => {
                RuntimeControlAction::SetThreadCollaborationMode
            },
            RuntimeControlActionRequest::InterruptRunningTurn => {
                RuntimeControlAction::InterruptRunningTurn
            },
        }
    }

    /// Whether the request is complete.
    pub fn validate(&self) -> (res: bool)
        ensures
            res == self.is_valid(),
    {
        match self {
            RuntimeControlActionRequest::LaunchLocalSession { target, session_id } => {
                *target != LaunchLocalSessionTarget::Resume || text::trim_filled(
                    text::as_deref(session_id),
                ).is_some()
            },
            _ => true,
        }
    }
}

/// What an action has done.
#[derive(Debug, Clone, PartialEq, Eq)]
pub enum RuntimeControlActionResult {
    StartFreshSession { thread_key: String, current_codex_thread_id: Option<String> },
    RepairSessionBinding {
        thread_key: String,
        verified: bool,
        session_broken_reason: Option<String>,
    },
    SetWorkspaceExecutionMode {
        thread_key: String,
        workspace_cwd: String,
        workspace_execution_mode: ExecutionMode,
        current_execution_mode: Option<ExecutionMode>,
        current_approval_policy: Option<String>,
        current_sandbox_policy: Option<String>,
        mode_drift: bool,
    },
    LaunchLocalSession {
        thread_key: String,
        target: LaunchLocalSessionTarget,
        command: String,
        launched: bool,
    },
    SetThreadCollaborationMode { thread_key: String, mode: CollaborationMode },
    InterruptRunningTurn {
        thread_key: String,
        session_id: String,
        turn_id: Option<String>,
        state: InterruptRunningTurnState,
    },
}

/// The answer to a request.
#[derive(Debug, Clone, PartialEq, Eq)]
pub struct RuntimeControlActionEnvelope {
    pub ok: bool,
    pub action: RuntimeControlAction,
    pub result: RuntimeControlActionResult,
}

/// Something that has changed in the runtime.
#[derive(Debug)]
pub struct RuntimeEvent {
    pub kind: RuntimeEventKind,
    pub op: RuntimeEventOperation,
    pub key: Option<String>,
    pub current: Option<Value>,
    pub message: Option<String>,
}

/// The health of a workspace is what its owner last found out about it. Without an owner, or before
/// it has looked, nothing of the workspace runs and it is not available, whatever an earlier
/// heartbeat said, and an error says so.
pub proof fn law_health_needs_an_owner(
    workspace: Seq<char>,
    has_owner: bool,
    heartbeat: Option<HeartbeatModel>,
)
    ensures
        ({
            let health = health_of(workspace, has_owner, heartbeat);
            &&& has_owner && heartbeat is Some ==> health.app_server_status
                == heartbeat->0.app_server_status && health.hcodex_ingress_status
                == heartbeat->0.hcodex_ingress_status && health.runtime_readiness
                == heartbeat->0.runtime_readiness && health.last_error == heartbeat->0.last_error
                && health.last_checked_at == Some(heartbeat->0.last_checked_at) && health.source
                == "owner_heartbeat"@
            &&& !has_owner || heartbeat is None ==> health.app_server_status == "missing"@
                && health.hcodex_ingress_status == "missing"@ && health.runtime_readiness
                == "unavailable"@ && health.last_error is Some && health.last_checked_at is None
            &&& !has_owner ==> health.source == "owner_required"@
            &&& has_owner && heartbeat is None ==> health.source == "owner_pending"@
                && text::contains(health.last_error->0, workspace)
        }),
{
    if has_owner && heartbeat is None {
        let head = "desktop runtime owner has not published a heartbeat for "@;
        let said = head + workspace + " yet"@;
        assert(said.subrange(head.len() as int, (head.len() + workspace.len()) as int) =~= workspace);
        assert(text::occurs_at(said, workspace, head.len() as int));
    }
}

/// A workspace needs nothing exactly where no other thread is bound to it, its owner looks after
/// it, both of its surfaces run, no session waits for adoption, its session is neither broken nor
/// lost, it is not degraded and there is no error.
pub proof fn law_hints_are_given_where_something_is_wrong(
    conflict: bool,
    binding_status: Seq<char>,
    reason: Option<Seq<char>>,
    health: HealthModel,
    adoption_pending: bool,
    tui_session: Option<Seq<char>>,
)
    ensures
        hint_of(conflict, binding_status, reason, health, adoption_pending, tui_session) is None
            <==> {
            &&& !conflict
            &&& health.source != "owner_required"@ && health.source != "owner_pending"@
            &&& health.app_server_status == "running"@
            &&& health.hcodex_ingress_status == "running"@
            &&& !adoption_pending && health.runtime_readiness != "pending_adoption"@
            &&& binding_status != "broken"@
            &&& !is_unloaded(reason)
            &&& health.runtime_readiness != "degraded"@
            &&& health.last_error is None
        },
{
}

/// What is wrong on the way to a session is told before what is wrong with the session itself: a
/// conflict before all else, then a missing owner, then a surface that does not run, then a session
/// that waits for adoption. What comes behind the first of them changes nothing.
pub proof fn law_the_most_urgent_hint_is_given(
    a: HealthModel,
    b: HealthModel,
    status_a: Seq<char>,
    status_b: Seq<char>,
    reason_a: Option<Seq<char>>,
    reason_b: Option<Seq<char>>,
    pending_a: bool,
    pending_b: bool,
    tui_a: Option<Seq<char>>,
    tui_b: Option<Seq<char>>,
)
    ensures
        hint_of(true, status_a, reason_a, a, pending_a, tui_a) == hint_of(
            true,
            status_b,
            reason_b,
            b,
            pending_b,
            tui_b,
        ),
        a.source == "owner_required"@ && b.source == "owner_pending"@ ==> hint_of(
            false,
            status_a,
            reason_a,
            a,
            pending_a,
            tui_a,
        ) == hint_of(false, status_b, reason_b, b, pending_b, tui_b),
        a.source == "owner_heartbeat"@ && b.source == a.source && a.app_server_status != "running"@
            && b.app_server_status != "running"@ ==> hint_of(
            false,
            status_a,
            reason_a,
            a,
            pending_a,
            tui_a,
        ) == hint_of(false, status_b, reason_b, b, pending_b, tui_b),
        a.source == "owner_heartbeat"@ && b.source == a.source && a.app_server_status == "running"@
            && b.app_server_status == "running"@ && a.hcodex_ingress_status != "running"@
            && b.hcodex_ingress_status != "running"@ ==> hint_of(
            false,
            status_a,
            reason_a,
            a,
            pending_a,
            tui_a,
        ) == hint_of(false, status_b, reason_b, b, pending_b, tui_b),
{
    reveal_strlit("owner_heartbeat");
    reveal_strlit("owner_required");
    reveal_strlit("owner_pending");
    assert("owner_heartbeat"@[6] == 'h' && "owner_required"@[6] == 'r' && "owner_pending"@[6]
        == 'p');
}

/// Why and since when a session is broken is told only of a binding that is marked as broken. The
/// binding goes before the metadata.
pub proof fn law_only_broken_bindings_have_a_reason(
    metadata: MetadataModel,
    binding: Option<BindingModel>,
)
    ensures
        binding is None || !binding->0.session_broken ==> broken_reason_of(metadata, binding) is None
            && broken_at_of(metadata, binding) is None,
        binding is Some && binding->0.session_broken && binding->0.session_broken_reason is Some
            ==> broken_reason_of(metadata, binding) == binding->0.session_broken_reason,
        binding is Some && binding->0.session_broken && binding->0.session_broken_reason is None
            ==> broken_reason_of(metadata, binding) == metadata.session_broken_reason,
        binding is Some && binding->0.session_broken && binding->0.session_broken_at is Some
            ==> broken_at_of(metadata, binding) == binding->0.session_broken_at,
        binding is Some && binding->0.session_broken && binding->0.session_broken_at is None
            ==> broken_at_of(metadata, binding) == metadata.session_broken_at,
{
}

/// A session has drifted from its workspace where there is one and it does not run in the mode of
/// the workspace; a binding without a session never has.
pub proof fn law_drift_is_another_mode(binding: BindingModel, mode: ExecutionMode)
    ensures
        binding.current_codex_thread_id is None ==> !has_drifted(mode, binding),
        binding.current_execution_mode == Some(mode) ==> !has_drifted(mode, binding),
        binding.current_codex_thread_id is Some && binding.current_execution_mode is None
            ==> has_drifted(mode, binding),
        binding.current_codex_thread_id is Some && binding.current_execution_mode is Some
            && binding.current_execution_mode->0 != mode ==> has_drifted(mode, binding),
{
}

/// A runtime that is ready waits for adoption where a session does. One whose threads could not be
/// asked for is shown neither as ready nor with a running server, and the error is told.
pub proof fn law_shown_health_is_not_better_than_known(
    health: HealthModel,
    pending: bool,
    state: Result<ResolvedThreadState, String>,
)
    ensures
        ({
            let shown = shown_health(health, pending, state);
            &&& pending ==> shown.runtime_readiness != "ready"@
            &&& state is Ok && pending && health.runtime_readiness == "ready"@
                ==> shown.runtime_readiness == "pending_adoption"@
            &&& state is Ok && !(pending && health.runtime_readiness == "ready"@) ==> shown == health
            &&& state is Ok ==> shown.last_error == health.last_error && shown.app_server_status
                == health.app_server_status
            &&& state is Err ==> shown.runtime_readiness != "ready"@ && shown.app_server_status
                != "running"@ && shown.last_error is Some
            &&& state matches Err(error) ==> (health.last_error is None ==> shown.last_error == Some(
                error@,
            )) && (health.last_error is Some ==> shown.last_error == Some(
                health.last_error->0 + "; "@ + error@,
            ))
            &&& shown.hcodex_ingress_status == health.hcodex_ingress_status && shown.source
                == health.source
        }),
{
    reveal_strlit("ready");
    reveal_strlit("pending_adoption");
    reveal_strlit("degraded");
    reveal_strlit("running");
    reveal_strlit("unavailable");
    assert("ready"@.len() == 5 && "pending_adoption"@.len() == 16 && "degraded"@.len() == 8);
    assert("running"@.len() == 7 && "unavailable"@.len() == 11);
}

/// What is shown of a workspace is what its thread and its binding say: names, sessions, modes and
/// policies are taken over as they are, and a launch goes through the launcher of the workspace.
pub proof fn law_workspaces_show_their_binding(
    input: WorkspaceViewInput,
    binding: BindingModel,
    workspace: Seq<char>,
)
    ensures
        ({
            let item = workspace_item(input, binding, workspace);
            &&& item.workspace_cwd == workspace
            &&& item.thread_key == Some(input.metadata@.thread_key)
            &&& item.title == input.metadata@.title
            &&& item.last_used_at == input.metadata@.last_codex_turn_at
            &&& item.workspace_execution_mode == input.workspace_execution_mode
            &&& item.current_execution_mode == binding.current_execution_mode
            &&& item.current_approval_policy == binding.current_approval_policy
            &&& item.current_sandbox_policy == binding.current_sandbox_policy
            &&& item.current_codex_thread_id == binding.current_codex_thread_id
            &&& item.tui_active_codex_thread_id == binding.tui_active_codex_thread_id
            &&& item.tui_session_adoption_pending == binding.tui_session_adoption_pending
            &&& item.mode_drift <==> binding.current_codex_thread_id is Some
                && binding.current_execution_mode != Some(input.workspace_execution_mode)
            &&& !binding.session_broken ==> item.session_broken_reason is None
            &&& binding.session_broken && binding.session_broken_reason is Some
                ==> item.session_broken_reason == binding.session_broken_reason
            &&& input.resolved_state is Err ==> item.run_status == "unavailable"@ && item.run_phase
                == "unavailable"@
            &&& input.resolved_state matches Ok(state) ==> item.run_status
                == state.run_status.name() && item.run_phase == state.run_phase.name()
            &&& item.recent_codex_sessions == ranking::list_views(input.recent_sessions@)
            &&& item.hcodex_available == input.hcodex_available
        }),
{
}

/// A thread is shown as long as it has a binding with a workspace: one more such thread is one more
/// item, behind the others.
pub proof fn law_threads_with_a_workspace_are_shown(
    inputs: Seq<WorkspaceViewInput>,
    input: WorkspaceViewInput,
)
    ensures
        ({
            let more = workspace_items(inputs.push(input));
            let has_workspace = input.binding is Some && input.binding->0.workspace_cwd is Some;
            &&& !has_workspace ==> more == workspace_items(inputs)
            &&& has_workspace ==> more.len() == workspace_items(inputs).len() + 1
                && more.drop_last() == workspace_items(inputs) && more.last().workspace_cwd
                == input.binding->0.workspace_cwd->0@ && more.last().thread_key == Some(
                input.metadata.thread_key@,
            )
        }),
{
    assert(inputs.push(input).drop_last() =~= inputs);
    let more = workspace_items(inputs.push(input));
    if input.binding is Some && input.binding->0.workspace_cwd is Some {
        assert(more.drop_last() =~= workspace_items(inputs));
    }
}

/// A surface runs where there are workspaces and it runs in each of them; it is missing where there
/// are none.
pub proof fn law_surfaces_run_where_all_run(statuses: Seq<Seq<char>>)
    ensures
        running_status_of(statuses) == "running"@ <==> statuses.len() > 0 && forall|i: int|
            0 <= i < statuses.len() ==> #[trigger] statuses[i] == "running"@,
        running_status_of(statuses) == "missing"@ <==> statuses.len() == 0,
{
    reveal_strlit("running");
    reveal_strlit("missing");
    reveal_strlit("unavailable");
    assert("running"@[0] == 'r' && "missing"@[0] == 'm' && "unavailable"@[0] == 'u');
}

/// The readiness of the whole is no better than that of any workspace: it is unavailable as soon as
/// one workspace is neither ready nor degraded nor pending adoption, and degraded as soon as one is
/// degraded or pending adoption.
pub proof fn law_readiness_is_the_least(statuses: Seq<Seq<char>>, i: int)
    requires
        0 <= i < statuses.len(),
    ensures
        statuses[i] != "ready"@ && statuses[i] != "degraded"@ && statuses[i] != "pending_adoption"@
            ==> readiness_of(statuses) == "unavailable"@,
        statuses[i] == "degraded"@ || statuses[i] == "pending_adoption"@ ==> readiness_of(statuses)
            == "unavailable"@ || readiness_of(statuses) == "degraded"@,
        readiness_of(statuses) == "degraded"@ ==> statuses[i] == "ready"@ || statuses[i]
            == "degraded"@ || statuses[i] == "pending_adoption"@,
{
    reveal_strlit("ready");
    reveal_strlit("degraded");
    reveal_strlit("unavailable");
    reveal_strlit("missing");
    assert("ready"@[0] == 'r' && "degraded"@[0] == 'd' && "unavailable"@[0] == 'u' && "missing"@[0]
        == 'm');
    assert(is_unavailable(statuses[i]) || is_degraded(statuses[i]) || statuses[i] == "ready"@);
}

/// The hint for the whole is that of the first workspace that has one; an owner in error, and
/// before that a conflict, is told first.
pub proof fn law_the_first_hint_is_shown(
    owner: OwnerStatusModel,
    hints: Seq<Option<Seq<char>>>,
    i: int,
)
    requires
        0 <= i < hints.len(),
        hints[i] is Some,
        forall|k: int| 0 <= k < i ==> #[trigger] hints[k] is None,
    ensures
        owner.state != "error"@ ==> runtime_hint_of(owner, hints, false) == hints[i],
        owner.state == "error"@ ==> runtime_hint_of(owner, hints, false) == runtime_hint_of(
            owner,
            Seq::empty(),
            false,
        ) && runtime_hint_of(owner, hints, false) is Some,
        runtime_hint_of(owner, hints, true) is Some,
        runtime_hint_of(owner, hints, true) == runtime_hint_of(
            OwnerStatusModel { state: Seq::empty(), ..owner },
            Seq::empty(),
            true,
        ),
    decreases i,
{
    if i > 0 {
        let rest = hints.skip(1);
        assert(hints[0] is None);
        assert forall|k: int| 0 <= k < i - 1 implies #[trigger] rest[k] is None by {
            assert(rest[k] == hints[k + 1]);
        }
        law_the_first_hint_is_shown(owner, rest, i - 1);
        lemma_first_hint(hints, i);
    }
}

proof fn lemma_first_hint(hints: Seq<Option<Seq<char>>>, i: int)
    requires
        0 <= i < hints.len(),
        hints[i] is Some,
        forall|k: int| 0 <= k < i ==> #[trigger] hints[k] is None,
    ensures
        first_hint(hints) == hints[i],
    decreases i,
{
    if i > 0 {
        let rest = hints.skip(1);
        assert(hints[0] is None);
        assert forall|k: int| 0 <= k < i - 1 implies #[trigger] rest[k] is None by {
            assert(rest[k] == hints[k + 1]);
        }
        lemma_first_hint(rest, i - 1);
    }
}

/// One more of a list is counted if it is of the kind.
pub proof fn law_tally_counts_each<T>(list: Seq<T>, item: T, is_counted: spec_fn(T) -> bool)
    ensures
        tally(list.push(item), is_counted) == tally(list, is_counted) + if is_counted(item) {
            1nat
        } else {
            0
        },
        tally(Seq::<T>::empty(), is_counted) == 0,
{
    assert(list.push(item).drop_last() =~= list);
}

/// What is shown of a thread is what its metadata and its binding say. A thread without a binding
/// has no workspace, no session and no mode.
pub proof fn law_threads_show_their_binding(input: ThreadViewInput)
    ensures
        ({
            let item = thread_item(input);
            let metadata = input.metadata@;
            &&& item.thread_key == metadata.thread_key && item.title == metadata.title
            &&& item.chat_id == metadata.chat_id && item.message_thread_id
                == metadata.message_thread_id
            &&& item.archived_at == metadata.archived_at && item.last_codex_turn_at
                == metadata.last_codex_turn_at && item.last_used_at == metadata.last_codex_turn_at
            &&& input.binding is None ==> item.workspace_cwd is None && item.current_codex_thread_id
                is None && item.tui_active_codex_thread_id is None && item.current_execution_mode
                is None && item.workspace_execution_mode is None && item.last_verified_at is None
                && !item.tui_session_adoption_pending && item.session_broken_reason is None
            &&& input.binding matches Some(binding) ==> item.workspace_cwd
                == binding@.workspace_cwd && item.current_codex_thread_id
                == binding@.current_codex_thread_id && item.tui_active_codex_thread_id
                == binding@.tui_active_codex_thread_id && item.current_execution_mode
                == binding@.current_execution_mode && item.current_approval_policy
                == binding@.current_approval_policy && item.current_sandbox_policy
                == binding@.current_sandbox_policy && item.last_verified_at
                == binding@.last_verified_at && item.tui_session_adoption_pending
                == binding@.tui_session_adoption_pending && (item.workspace_execution_mode is Some
                <==> binding@.workspace_cwd is Some)
            &&& item.workspace_execution_mode is Some ==> item.workspace_execution_mode == Some(
                input.workspace_execution_mode,
            )
        }),
{
}

/// Only a request to resume a session can be incomplete: it is where the session is not named, or
/// named by white space. Every request asks for the action of its name.
pub proof fn law_sessions_to_resume_are_named(request: RuntimeControlActionRequest)
    ensures
        !request.is_valid() ==> request is LaunchLocalSession,
        request matches RuntimeControlActionRequest::LaunchLocalSession { target, session_id } ==> {
            &&& target != LaunchLocalSessionTarget::Resume ==> request.is_valid()
            &&& target == LaunchLocalSessionTarget::Resume ==> (request.is_valid() <==> session_id
                is Some && !text::is_blank(session_id->0@))
        },
        request is StartFreshSession <==> request.kind() == RuntimeControlAction::StartFreshSession,
        request is RepairSessionBinding <==> request.kind()
            == RuntimeControlAction::RepairSessionBinding,
        request is SetWorkspaceExecutionMode <==> request.kind()
            == RuntimeControlAction::SetWorkspaceExecutionMode,
        request is LaunchLocalSession <==> request.kind()
            == RuntimeControlAction::LaunchLocalSession,
        request is SetThreadCollaborationMode <==> request.kind()
            == RuntimeControlAction::SetThreadCollaborationMode,
        request is InterruptRunningTurn <==> request.kind()
            == RuntimeControlAction::InterruptRunningTurn,
{
}

/// An archived thread is shown with its own key, title and time, the workspace of its binding, and the
/// topics that it had before; what a thread does is shown as unknown only where it could not be found
/// out.
pub proof fn law_archived_threads_show_what_they_were(
    metadata: MetadataModel,
    binding: BindingModel,
    state: ResolvedThreadState,
    reason: String,
)
    ensures
        ({
            let shown = archived_item(metadata, Some(binding));
            &&& shown.thread_key == metadata.thread_key
            &&& shown.title == metadata.title
            &&& shown.workspace_cwd == binding.workspace_cwd
            &&& shown.archived_at == metadata.archived_at
            &&& shown.previous_message_thread_ids == metadata.previous_message_thread_ids
        }),
        archived_item(metadata, None).workspace_cwd is None,
        shown_run_status(Ok(state)) == state.run_status.name(),
        shown_run_phase(Ok(state)) == state.run_phase.name(),
        shown_run_status(Err(reason)) == "unavailable"@,
        shown_run_phase(Err(reason)) == "unavailable"@,
{
}

/// Kinds of events are told apart by their names.
pub proof fn law_events_have_names_of_their_own(a: RuntimeEventKind, b: RuntimeEventKind)
    ensures
        a.name() == b.name() <==> a == b,
        a is SetupChanged ==> a.name() == "setup_changed"@,
        a is RuntimeHealthChanged ==> a.name() == "runtime_health_changed"@,
        a is ManagedCodexChanged ==> a.name() == "managed_codex_changed"@,
        a is ThreadStateChanged ==> a.name() == "thread_state_changed"@,
        a is WorkspaceStateChanged ==> a.name() == "workspace_state_changed"@,
        a is ArchivedThreadChanged ==> a.name() == "archived_thread_changed"@,
        a is WorkingSessionChanged ==> a.name() == "working_session_changed"@,
        a is TranscriptChanged ==> a.name() == "transcript_changed"@,
        a is Error ==> a.name() == "error"@,
{
    reveal_strlit("setup_changed");
    reveal_strlit("runtime_health_changed");
    reveal_strlit("managed_codex_changed");
    reveal_strlit("thread_state_changed");
    reveal_strlit("workspace_state_changed");
    reveal_strlit("archived_thread_changed");
    reveal_strlit("working_session_changed");
    reveal_strlit("transcript_changed");
    reveal_strlit("error");
    assert("setup_changed"@.len() == 13);
    assert("runtime_health_changed"@.len() == 22);
    assert("managed_codex_changed"@.len() == 21);
    assert("thread_state_changed"@.len() == 20);
    assert("workspace_state_changed"@.len() == 23);
    assert("archived_thread_changed"@.len() == 23);
    assert("working_session_changed"@.len() == 23);
    assert("transcript_changed"@.len() == 18);
    assert("error"@.len() == 5);
    assert("workspace_state_changed"@[0] != "archived_thread_changed"@[0]);
    assert("workspace_state_changed"@[4] != "working_session_changed"@[4]);
    assert("archived_thread_changed"@[0] != "working_session_changed"@[0]);
}

/// Actions are told apart by their names.
pub proof fn law_actions_have_names_of_their_own(a: RuntimeControlAction, b: RuntimeControlAction)
    ensures
        a.name() == b.name() <==> a == b,
        a is StartFreshSession ==> a.name() == "start_fresh_session"@,
        a is RepairSessionBinding ==> a.name() == "repair_session_binding"@,
        a is LaunchLocalSession ==> a.name() == "launch_local_session"@,
        a is SetWorkspaceExecutionMode ==> a.name() == "set_workspace_execution_mode"@,
        a is SetThreadCollaborationMode ==> a.name() == "set_thread_collaboration_mode"@,
        a is InterruptRunningTurn ==> a.name() == "interrupt_running_turn"@,
        a is AdoptTuiSession ==> a.name() == "adopt_tui_session"@,
        a is RejectTuiSession ==> a.name() == "reject_tui_session"@,
        a is ArchiveThread ==> a.name() == "archive_thread"@,
        a is RestoreThread ==> a.name() == "restore_thread"@,
        a is RepairWorkspaceRuntime ==> a.name() == "repair_workspace_runtime"@,
{
    reveal_strlit("start_fresh_session");
    reveal_strlit("repair_session_binding");
    reveal_strlit("launch_local_session");
    reveal_strlit("set_workspace_execution_mode");
    reveal_strlit("set_thread_collaboration_mode");
    reveal_strlit("interrupt_running_turn");
    reveal_strlit("adopt_tui_session");
    reveal_strlit("reject_tui_session");
    reveal_strlit("archive_thread");
    reveal_strlit("restore_thread");
    reveal_strlit("repair_workspace_runtime");
    assert("start_fresh_session"@.len() == 19);
    assert("repair_session_binding"@.len() == 22);
    assert("launch_local_session"@.len() == 20);
    assert("set_workspace_execution_mode"@.len() == 28);
    assert("set_thread_collaboration_mode"@.len() == 29);
    assert("interrupt_running_turn"@.len() == 22);
    assert("adopt_tui_session"@.len() == 17);
    assert("reject_tui_session"@.len() == 18);
    assert("archive_thread"@.len() == 14);
    assert("restore_thread"@.len() == 14);
    assert("repair_workspace_runtime"@.len() == 24);
    assert("repair_session_binding"@[0] != "interrupt_running_turn"@[0]);
    assert("archive_thread"@[0] != "restore_thread"@[0]);
}

/// Interactions are told apart by their names.
pub proof fn law_interactions_have_names_of_their_own(a: RuntimeInteractionKind, b: RuntimeInteractionKind)
    ensures
        a.name() == b.name() <==> a == b,
        a is RequestUserInput ==> a.name() == "request_user_input"@,
        a is RequestResolved ==> a.name() == "request_resolved"@,
        a is TurnCompleted ==> a.name() == "turn_completed"@,
{
    reveal_strlit("request_user_input");
    reveal_strlit("request_resolved");
    reveal_strlit("turn_completed");
    assert("request_user_input"@.len() == 18);
    assert("request_resolved"@.len() == 16);
    assert("turn_completed"@.len() == 14);
}

/// Targets of a launch are told apart by their names.
pub proof fn law_targets_have_names_of_their_own(a: LaunchLocalSessionTarget, b: LaunchLocalSessionTarget)
    ensures
        a.name() == b.name() <==> a == b,
        a is New ==> a.name() == "new"@,
        a is ContinueCurrent ==> a.name() == "continue_current"@,
        a is Resume ==> a.name() == "resume"@,
{
    reveal_strlit("new");
    reveal_strlit("continue_current");
    reveal_strlit("resume");
    assert("new"@.len() == 3);
    assert("continue_current"@.len() == 16);
    assert("resume"@.len() == 6);
}

} // verus!
