use threadbridge::execution_mode::{ExecutionMode, SessionExecutionSnapshot};
use threadbridge::repository::SessionBinding;
use threadbridge::telegram_runtime::preview::draft_refusal;
use threadbridge::telegram_runtime::restore::restored_answer;
use threadbridge::telegram_runtime::status_sync::reconcile_stale_bot_busy_sessions;
use threadbridge::telegram_runtime::{
    blocking_snapshot, callback_failure_answer, command_failure_warning,
};
use threadbridge::thread_state::{
    BindingStatus, LifecycleStatus, ResolvedThreadState, RunStatus,
};
use threadbridge::workspace_status::{
    SessionActivitySource, SessionCurrentStatus, WorkspaceStatusPhase,
};

fn binding(session_id: &str) -> Option<SessionBinding> {
    Some(SessionBinding::fresh(
        Some("/workspace".to_owned()),
        Some(session_id.to_owned()),
        SessionExecutionSnapshot::from_mode(ExecutionMode::FullAuto),
    ))
}

fn started(session_id: &str, summary: &str) -> SessionCurrentStatus {
    SessionCurrentStatus {
        schema_version: 2,
        workspace_cwd: "/workspace".to_owned(),
        session_id: session_id.to_owned(),
        activity_source: SessionActivitySource::ManagedRuntime,
        live: false,
        phase: WorkspaceStatusPhase::TurnRunning,
        shell_pid: None,
        child_pid: None,
        child_pgid: None,
        child_command: None,
        client: Some("threadbridge".to_owned()),
        turn_id: Some("turn-1".to_owned()),
        summary: Some(summary.to_owned()),
        pending_interrupt_turn_id: None,
        pending_interrupt_requested_at: None,
        observer_attach_mode: None,
        updated_at: "2026-03-19T00:00:00.000Z".to_owned(),
    }
}

#[test]
fn startup_reconciliation_recovers_bot_busy_session() {
    let done =
        reconcile_stale_bot_busy_sessions(&vec![binding("thr_test")], &vec![started("thr_test", "hello")]);
    assert_eq!(done.report.scanned_threads, 1);
    assert_eq!(done.report.unique_sessions, 1);
    assert_eq!(done.report.recovered_sessions, 1);
    assert_eq!(done.report.recovered_threads, 1);
    assert_eq!(done.report.skipped_threads, 0);
    assert_eq!(done.statuses.len(), 1);
    let session = &done.statuses[0];
    assert_eq!(session.session_id, "thr_test");
    assert_eq!(session.activity_source, SessionActivitySource::ManagedRuntime);
    assert_eq!(session.phase, WorkspaceStatusPhase::Idle);
    assert_eq!(session.turn_id, None);
    assert_eq!(done.threads, vec![0]);
}

#[test]
fn startup_reconciliation_does_not_recover_local_busy_session() {
    let local_session = SessionCurrentStatus {
        schema_version: 2,
        workspace_cwd: "/workspace".to_owned(),
        session_id: "thr_test".to_owned(),
        activity_source: SessionActivitySource::Tui,
        live: true,
        phase: WorkspaceStatusPhase::TurnRunning,
        shell_pid: Some(42),
        child_pid: None,
        child_pgid: None,
        child_command: None,
        client: Some("codex-cli".to_owned()),
        turn_id: Some("turn-1".to_owned()),
        summary: Some("cli run".to_owned()),
        pending_interrupt_turn_id: None,
        pending_interrupt_requested_at: None,
        observer_attach_mode: None,
        updated_at: "2026-03-19T00:00:00.000Z".to_owned(),
    };
    let done = reconcile_stale_bot_busy_sessions(&vec![binding("thr_test")], &vec![local_session]);
    assert_eq!(done.report.recovered_sessions, 0);
    assert_eq!(done.report.recovered_threads, 0);
    assert_eq!(done.report.skipped_threads, 1);
    assert!(done.statuses.is_empty());
    assert!(done.threads.is_empty());
}

#[test]
fn startup_reconciliation_recovers_shared_session_once_and_logs_all_threads() {
    let done = reconcile_stale_bot_busy_sessions(
        &vec![binding("thr_shared"), binding("thr_shared")],
        &vec![started("thr_shared", "pending")],
    );
    assert_eq!(done.report.scanned_threads, 2);
    assert_eq!(done.report.unique_sessions, 1);
    assert_eq!(done.report.recovered_sessions, 1);
    assert_eq!(done.report.recovered_threads, 2);
    assert_eq!(done.report.skipped_threads, 0);
    assert_eq!(done.statuses.len(), 1);
    assert_eq!(done.threads, vec![0, 1]);
}

#[test]
fn threads_without_a_stale_session_are_skipped() {
    let mut idle = started("thr_idle", "done");
    idle.phase = WorkspaceStatusPhase::Idle;
    let done = reconcile_stale_bot_busy_sessions(
        &vec![None, binding("thr_idle"), binding("thr_unknown"), binding("thr_busy")],
        &vec![idle, started("thr_busy", "x")],
    );
    assert_eq!(done.report.scanned_threads, 4);
    assert_eq!(done.report.unique_sessions, 3);
    assert_eq!(done.report.recovered_sessions, 1);
    assert_eq!(done.report.skipped_threads, 3);
    assert_eq!(done.threads, vec![3]);
}

#[test]
fn a_busy_session_blocks_a_running_thread() {
    let state = |run_status, run_phase| ResolvedThreadState {
        lifecycle_status: LifecycleStatus::Active,
        binding_status: BindingStatus::Healthy,
        run_status,
        run_phase,
    };
    let running = state(RunStatus::Running, WorkspaceStatusPhase::TurnRunning);
    let idle = state(RunStatus::Idle, WorkspaceStatusPhase::Idle);
    let busy = || Some(started("thr_test", "x"));
    assert_eq!(blocking_snapshot(running, busy()), busy());
    assert_eq!(blocking_snapshot(running, None), None);
    assert_eq!(blocking_snapshot(idle, busy()), None);
}

#[test]
fn refused_drafts_say_why() {
    assert_eq!(draft_refusal(true, "200 OK", true, Some("fine")), None);
    assert_eq!(
        draft_refusal(false, "400 Bad Request", true, Some("no draft")).as_deref(),
        Some("Telegram sendMessageDraft failed (HTTP 400 Bad Request): no draft")
    );
    assert_eq!(
        draft_refusal(true, "200 OK", false, None).as_deref(),
        Some("Telegram sendMessageDraft failed (HTTP 200 OK): unknown Telegram error")
    );
}

#[test]
fn failures_are_worded() {
    assert_eq!(command_failure_warning("boom"), "Command failed: boom");
    assert_eq!(callback_failure_answer(), "Action failed.");
    assert_eq!(restored_answer(), "Thread restored.");
}
