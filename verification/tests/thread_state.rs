use threadbridge::execution_mode::{ExecutionMode, SessionExecutionSnapshot};
use threadbridge::repository::{
    RunningInputPolicy, SessionBinding, ThreadMetadata, ThreadScope, ThreadStatus,
};
use threadbridge::thread_state::{
    candidate_session_ids, recovered_status, resolve_thread_state, stored_snapshot,
    BackendThreadRunState, BindingStatus, BusyQueryError, BusySearch, BusySource, LifecycleStatus,
    ResolvedThreadState, RunStatus,
};
use threadbridge::workspace_status::{
    SessionActivitySource, SessionCurrentStatus, WorkspaceStatusPhase,
};

#[test]
fn resolved_state_helpers_follow_canonical_axes() {
    let archived = ResolvedThreadState {
        lifecycle_status: LifecycleStatus::Archived,
        binding_status: BindingStatus::Healthy,
        run_status: RunStatus::Idle,
        run_phase: WorkspaceStatusPhase::Idle,
    };
    assert!(archived.is_archived());
    assert!(!archived.is_unbound());
    assert!(!archived.is_broken());
    assert!(!archived.is_running());

    let broken_running = ResolvedThreadState {
        lifecycle_status: LifecycleStatus::Active,
        binding_status: BindingStatus::Broken,
        run_status: RunStatus::Running,
        run_phase: WorkspaceStatusPhase::TurnRunning,
    };
    assert!(!broken_running.is_archived());
    assert!(!broken_running.is_unbound());
    assert!(broken_running.is_broken());
    assert!(broken_running.is_running());

    let unbound_idle = ResolvedThreadState {
        lifecycle_status: LifecycleStatus::Active,
        binding_status: BindingStatus::Unbound,
        run_status: RunStatus::Idle,
        run_phase: WorkspaceStatusPhase::Idle,
    };
    assert!(unbound_idle.is_unbound());
}

fn metadata(status: ThreadStatus, session_broken: bool) -> ThreadMetadata {
    ThreadMetadata {
        archived_at: None,
        chat_id: 1,
        created_at: "2026-03-22T00:00:00.000Z".to_owned(),
        last_codex_turn_at: None,
        message_thread_id: Some(100),
        previous_message_thread_ids: Vec::new(),
        running_input_policy: RunningInputPolicy::default(),
        scope: ThreadScope::Thread,
        session_broken,
        session_broken_at: None,
        session_broken_reason: None,
        status,
        title: Some("Workspace".to_owned()),
        updated_at: "2026-03-22T00:00:00.000Z".to_owned(),
        thread_key: "thread-1".to_owned(),
    }
}

fn binding(current: Option<&str>, tui: Option<&str>, session_broken: bool) -> SessionBinding {
    let mut binding = SessionBinding::fresh(
        Some("/work".to_owned()),
        current.map(str::to_owned),
        SessionExecutionSnapshot::from_mode(ExecutionMode::FullAuto),
    );
    binding.tui_active_codex_thread_id = tui.map(str::to_owned);
    binding.session_broken = session_broken;
    binding
}

fn stored(
    session_id: &str,
    activity_source: SessionActivitySource,
    phase: WorkspaceStatusPhase,
) -> SessionCurrentStatus {
    SessionCurrentStatus {
        schema_version: 2,
        workspace_cwd: "/work".to_owned(),
        session_id: session_id.to_owned(),
        activity_source,
        live: activity_source == SessionActivitySource::Tui,
        phase,
        shell_pid: None,
        child_pid: None,
        child_pgid: None,
        child_command: None,
        client: Some("threadbridge".to_owned()),
        turn_id: (phase.is_turn_busy()).then_some("turn-1".to_owned()),
        summary: None,
        pending_interrupt_turn_id: None,
        pending_interrupt_requested_at: None,
        observer_attach_mode: None,
        updated_at: "2026-03-22T00:00:00.000Z".to_owned(),
    }
}

fn without_worker(
    binding: &SessionBinding,
    statuses: Vec<SessionCurrentStatus>,
    live_claim: Option<&str>,
) -> Option<SessionCurrentStatus> {
    let search = BusySearch::begin(Some(binding)).unwrap();
    match search.source(None, Some(statuses), live_claim) {
        Ok(BusySource::Stored { snapshot }) => snapshot,
        _ => panic!("expected what is stored"),
    }
}

fn report(is_busy: bool, phase: Option<&str>) -> BackendThreadRunState {
    BackendThreadRunState {
        is_busy,
        active_turn_id: is_busy.then_some("turn_worker".to_owned()),
        interruptible: is_busy,
        phase: phase.map(str::to_owned),
        last_transition_at: None,
    }
}

#[test]
fn resolve_thread_state_returns_idle_for_unbound_thread() {
    let state = resolve_thread_state(&metadata(ThreadStatus::Active, false), None, &None);
    assert_eq!(state.lifecycle_status, LifecycleStatus::Active);
    assert_eq!(state.binding_status, BindingStatus::Unbound);
    assert_eq!(state.run_status, RunStatus::Idle);
}

#[test]
fn resolve_thread_state_keeps_broken_binding_idle_without_busy_snapshot() {
    let binding = binding(Some("thr_current"), None, true);
    let snapshot = without_worker(&binding, Vec::new(), None);
    let state = resolve_thread_state(
        &metadata(ThreadStatus::Archived, true),
        Some(&binding),
        &snapshot,
    );
    assert_eq!(state.lifecycle_status, LifecycleStatus::Archived);
    assert_eq!(state.binding_status, BindingStatus::Broken);
    assert_eq!(state.run_status, RunStatus::Idle);
}

#[test]
fn resolve_thread_state_ignores_stale_metadata_broken_flag_when_binding_is_healthy() {
    let binding = binding(Some("thr_current"), None, false);
    let snapshot = without_worker(&binding, Vec::new(), None);
    let state = resolve_thread_state(
        &metadata(ThreadStatus::Active, true),
        Some(&binding),
        &snapshot,
    );
    assert_eq!(state.binding_status, BindingStatus::Healthy);
}

#[test]
fn effective_busy_snapshot_falls_back_to_worker_state() {
    let mut search = BusySearch::begin(Some(&binding(Some("thr_current"), None, false))).unwrap();
    assert_eq!(search.next_session(), Some("thr_current"));
    let snapshot = search
        .record(Some(report(true, None)), "2026-03-22T00:00:00.000Z")
        .unwrap()
        .unwrap();
    assert_eq!(snapshot.session_id, "thr_current");
    assert_eq!(snapshot.turn_id.as_deref(), Some("turn_worker"));
    assert_eq!(snapshot.phase, WorkspaceStatusPhase::TurnRunning);
    assert_eq!(snapshot.updated_at, "2026-03-22T00:00:00.000Z");
    let state = resolve_thread_state(
        &metadata(ThreadStatus::Active, false),
        Some(&binding(Some("thr_current"), None, false)),
        &Some(snapshot),
    );
    assert_eq!(state.run_status, RunStatus::Running);
}

#[test]
fn worker_interrupt_requested_maps_to_turn_finalizing() {
    let mut search = BusySearch::begin(Some(&binding(Some("thr_current"), None, false))).unwrap();
    let snapshot = search
        .record(Some(report(true, Some("turn_interrupt_requested"))), "now")
        .unwrap()
        .unwrap();
    assert_eq!(snapshot.phase, WorkspaceStatusPhase::TurnFinalizing);
}

#[test]
fn busy_search_goes_on_to_the_tui_session() {
    let mut search =
        BusySearch::begin(Some(&binding(Some("thr_current"), Some("thr_tui"), false))).unwrap();
    assert!(search.record(Some(report(false, None)), "now").unwrap().is_none());
    assert_eq!(search.next_session(), Some("thr_tui"));
    let snapshot = search.record(Some(report(true, None)), "now").unwrap().unwrap();
    assert_eq!(snapshot.session_id, "thr_tui");
    assert_eq!(search.next_session(), None);
}

#[test]
fn busy_search_asks_for_a_session_once() {
    assert_eq!(
        candidate_session_ids(&binding(Some("thr_a"), Some("thr_a"), false)),
        Some(vec!["thr_a".to_owned()])
    );
    assert_eq!(candidate_session_ids(&binding(None, Some("  "), false)), None);
    assert!(BusySearch::begin(Some(&binding(None, None, false))).is_none());
    assert!(BusySearch::begin(None).is_none());
}

#[test]
fn busy_search_errors_name_the_workspace() {
    let mut search = BusySearch::begin(Some(&binding(Some("thr_a"), None, false))).unwrap();
    let error = search.source(None, None, None).err().unwrap();
    assert_eq!(error.to_text(), "workspace runtime state is unavailable for /work");
    let error = search.source(Some(None), Some(Vec::new()), None).err().unwrap();
    assert_eq!(error.to_text(), "workspace worker endpoint is unavailable for /work");
    assert!(matches!(
        search.source(Some(Some("ws://h".to_owned())), None, None),
        Ok(BusySource::Worker { url }) if url == "ws://h"
    ));
    let error = search.record(None, "now").unwrap_err();
    assert_eq!(
        error.to_text(),
        "failed to read worker run state for session `thr_a` in /work"
    );
    assert!(matches!(error, BusyQueryError::RunStateUnreadable { .. }));
    assert_eq!(search.next_session(), None);
}

#[test]
fn busy_search_ends_at_the_first_busy_session() {
    let mut search =
        BusySearch::begin(Some(&binding(Some("thr_current"), Some("thr_tui"), false))).unwrap();
    assert_eq!(search.workspace(), "/work");
    assert_eq!(search.session_ids().len(), 2);
    let snapshot = search.record(Some(report(true, None)), "now").unwrap().unwrap();
    assert_eq!(snapshot.session_id, "thr_current");
    assert_eq!(search.next_session(), None);
    assert!(search.record(Some(report(true, None)), "now").unwrap().is_none());
}

#[test]
fn resolve_thread_state_returns_running_for_busy_current_session() {
    let binding = binding(Some("thr_current"), None, false);
    let snapshot = without_worker(
        &binding,
        vec![stored(
            "thr_current",
            SessionActivitySource::ManagedRuntime,
            WorkspaceStatusPhase::TurnRunning,
        )],
        None,
    );
    let state =
        resolve_thread_state(&metadata(ThreadStatus::Active, false), Some(&binding), &snapshot);
    assert_eq!(state.binding_status, BindingStatus::Healthy);
    assert_eq!(state.run_status, RunStatus::Running);
}

#[test]
fn thread_state_effective_busy_snapshot_prefers_tui_when_current_is_idle() {
    let snapshot = without_worker(
        &binding(Some("thr_current"), Some("thr_tui"), false),
        vec![
            stored(
                "thr_current",
                SessionActivitySource::ManagedRuntime,
                WorkspaceStatusPhase::Idle,
            ),
            stored("thr_tui", SessionActivitySource::Tui, WorkspaceStatusPhase::TurnRunning),
        ],
        Some("thr_tui"),
    )
    .unwrap();
    assert_eq!(snapshot.session_id, "thr_tui");
    assert_eq!(snapshot.phase, WorkspaceStatusPhase::TurnRunning);
}

#[test]
fn status_sync_effective_busy_snapshot_prefers_tui_when_current_is_idle() {
    let current = SessionCurrentStatus {
        schema_version: 2,
        workspace_cwd: "/work".to_owned(),
        session_id: "thr_current".to_owned(),
        activity_source: SessionActivitySource::ManagedRuntime,
        live: false,
        phase: WorkspaceStatusPhase::Idle,
        shell_pid: None,
        child_pid: None,
        child_pgid: None,
        child_command: None,
        client: Some("threadbridge".to_owned()),
        turn_id: None,
        summary: None,
        pending_interrupt_turn_id: None,
        pending_interrupt_requested_at: None,
        observer_attach_mode: None,
        updated_at: "2026-03-19T00:00:00.000Z".to_owned(),
    };
    let tui = SessionCurrentStatus {
        schema_version: 2,
        workspace_cwd: "/work".to_owned(),
        session_id: "thr_tui".to_owned(),
        activity_source: SessionActivitySource::Tui,
        live: true,
        phase: WorkspaceStatusPhase::TurnRunning,
        shell_pid: Some(0),
        child_pid: None,
        child_pgid: None,
        child_command: None,
        client: Some("threadbridge-hcodex-ingress".to_owned()),
        turn_id: Some("turn-1".to_owned()),
        summary: Some("prompt".to_owned()),
        pending_interrupt_turn_id: None,
        pending_interrupt_requested_at: None,
        observer_attach_mode: None,
        updated_at: "2026-03-19T00:00:00.000Z".to_owned(),
    };
    let snapshot = without_worker(
        &binding(Some("thr_current"), Some("thr_tui"), false),
        vec![current, tui],
        Some("thr_tui"),
    )
    .unwrap();
    assert_eq!(snapshot.session_id, "thr_tui");
    assert_eq!(snapshot.phase, WorkspaceStatusPhase::TurnRunning);
}

#[test]
fn resolve_thread_state_recovers_stale_busy_current_tui_session() {
    let binding = binding(Some("thr_current"), None, false);
    let left = || {
        stored("thr_current", SessionActivitySource::Tui, WorkspaceStatusPhase::TurnRunning)
    };
    let snapshot = without_worker(&binding, vec![left()], None);
    let state =
        resolve_thread_state(&metadata(ThreadStatus::Active, false), Some(&binding), &snapshot);
    let session = recovered_status(left(), None);
    assert_eq!(state.run_status, RunStatus::Idle);
    assert!(!session.live);
    assert_eq!(session.phase, WorkspaceStatusPhase::Idle);
    assert_eq!(session.turn_id, None);
    assert_eq!(recovered_status(left(), Some("thr_current")), left());
}

#[test]
fn effective_busy_snapshot_keeps_live_current_tui_session_busy() {
    let snapshot = without_worker(
        &binding(Some("thr_current"), None, false),
        vec![stored(
            "thr_current",
            SessionActivitySource::Tui,
            WorkspaceStatusPhase::TurnRunning,
        )],
        Some("thr_current"),
    )
    .unwrap();
    assert_eq!(snapshot.session_id, "thr_current");
    assert_eq!(snapshot.phase, WorkspaceStatusPhase::TurnRunning);
}

#[test]
fn the_first_stored_busy_session_decides() {
    let statuses = || {
        vec![
            stored("thr_b", SessionActivitySource::ManagedRuntime, WorkspaceStatusPhase::TurnRunning),
            stored("thr_a", SessionActivitySource::ManagedRuntime, WorkspaceStatusPhase::TurnFinalizing),
        ]
    };
    let ids = vec!["thr_gone".to_owned(), "thr_a".to_owned(), "thr_b".to_owned()];
    assert_eq!(stored_snapshot(&ids, statuses(), None).unwrap().session_id, "thr_a");
    assert_eq!(stored_snapshot(&vec!["thr_gone".to_owned()], statuses(), None), None);
}

#[test]
fn statuses_have_names() {
    assert_eq!(LifecycleStatus::from(ThreadStatus::Archived).as_str(), "archived");
    assert_eq!(BindingStatus::Healthy.as_str(), "healthy");
    assert_eq!(RunStatus::Running.as_str(), "running");
}
