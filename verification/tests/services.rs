use threadbridge::execution_mode::{ExecutionMode, SessionExecutionSnapshot};
use threadbridge::repository::SessionBinding;
use threadbridge::runtime_control::{ControlError, RuntimeOwnershipMode, ThreadLog};
use threadbridge::runtime_owner::{
    heartbeat_for_workspace, runtime_state_file, DesktopRuntimeOwner, RuntimeOwnerStatus,
    RuntimeStateReading,
};
use threadbridge::session_routing::{
    RoutingEvent, RoutingLog, RoutingOutcome, RoutingRun, RoutingStep, SessionRoutingKind,
};
use threadbridge::tool_results::{
    parse_telegram_outbox, OutboxError, TelegramOutbox, TelegramOutboxItem,
};
use threadbridge::workspace_services::{
    advance_bind, advance_change, advance_runtime, begin_bind, begin_change, begin_fresh_session,
    begin_runtime, change_log, socket_address, BindEvent, BindStep, ChangeEvent, ChangeStep,
    RuntimeEvent, RuntimeStep, RuntimeUse, ServiceError, StartedSession, ThreadChange,
};
use threadbridge::workspace_status::{
    LocalTuiSessionClaim, SessionActivitySource, SessionCurrentStatus, WorkspaceStatusPhase,
};

fn binding() -> SessionBinding {
    SessionBinding::fresh(
        Some("/work".to_owned()),
        Some("thr_a".to_owned()),
        SessionExecutionSnapshot::from_mode(ExecutionMode::FullAuto),
    )
}

fn tui_binding(pending: bool) -> SessionBinding {
    let mut binding = binding();
    binding.tui_active_codex_thread_id = Some("thr_tui".to_owned());
    binding.tui_session_adoption_pending = pending;
    binding
}

fn claim(session_id: &str) -> LocalTuiSessionClaim {
    LocalTuiSessionClaim {
        schema_version: 2,
        workspace_cwd: "/work".to_owned(),
        thread_key: "thread-1".to_owned(),
        shell_pid: 42,
        session_id: Some(session_id.to_owned()),
        child_pid: None,
        child_pgid: None,
        child_command: None,
        started_at: "2026-03-19T00:00:10.000Z".to_owned(),
        updated_at: "2026-03-19T00:00:10.000Z".to_owned(),
    }
}

fn live_status() -> SessionCurrentStatus {
    SessionCurrentStatus {
        schema_version: 2,
        workspace_cwd: "/work".to_owned(),
        session_id: "thr_tui".to_owned(),
        activity_source: SessionActivitySource::Tui,
        live: true,
        phase: WorkspaceStatusPhase::ShellActive,
        shell_pid: None,
        child_pid: None,
        child_pgid: None,
        child_command: None,
        client: None,
        turn_id: None,
        summary: None,
        pending_interrupt_turn_id: None,
        pending_interrupt_requested_at: None,
        observer_attach_mode: None,
        updated_at: "2026-03-19T00:00:10.000Z".to_owned(),
    }
}

#[test]
fn telegram_input_auto_adopts_live_tui_session() {
    let (run, step) = RoutingRun::begin("thread-1".to_owned(), Some(tui_binding(false)));
    assert!(matches!(step, RoutingStep::ReadClaim { workspace } if workspace == "/work"));
    let (run, step) = run.advance(RoutingEvent::Claim(Some(claim("thr_tui"))));
    assert!(matches!(step, RoutingStep::ReadStatus { session_id, .. } if session_id == "thr_tui"));
    let (run, step) = run.advance(RoutingEvent::Status(Some(live_status())));
    assert!(matches!(step, RoutingStep::Verify { .. }));
    let (run, step) = run.advance(RoutingEvent::Done);
    assert!(matches!(step, RoutingStep::Adopt));
    let (run, step) = run.advance(RoutingEvent::Done);
    let RoutingStep::Log { log } = step else {
        panic!("expected a log");
    };
    assert_eq!(
        log.to_line(),
        "Auto-adopted live TUI session `thr_tui` for Telegram input routing."
    );
    let (_, step) = run.advance(RoutingEvent::Done);
    assert!(matches!(
        step,
        RoutingStep::Finish {
            outcome: Ok(RoutingOutcome::Adopted(SessionRoutingKind::LiveTui))
        }
    ));
}

#[test]
fn pending_adoptions_are_verified_at_once() {
    let (run, step) = RoutingRun::begin("thread-1".to_owned(), Some(tui_binding(true)));
    assert!(matches!(step, RoutingStep::Verify { session_id, .. } if session_id == "thr_tui"));
    let (run, step) = run.advance(RoutingEvent::Refused("gone".to_owned()));
    assert!(matches!(step, RoutingStep::ClearAdoption));
    let (run, step) = run.advance(RoutingEvent::Done);
    assert!(matches!(step, RoutingStep::Log { log: RoutingLog::VerificationFailed { .. } }));
    let (run, step) = run.advance(RoutingEvent::Done);
    let RoutingStep::MarkBroken { log } = step else {
        panic!("expected a broken binding");
    };
    assert_eq!(
        log.to_line(),
        "TUI session adoption verification failed for `thr_tui`: gone"
    );
    let (_, step) = run.advance(RoutingEvent::Done);
    assert!(matches!(
        step,
        RoutingStep::Finish { outcome: Ok(RoutingOutcome::BrokenAfterFailedVerify) }
    ));
}

#[test]
fn input_stays_where_no_tui_session_is() {
    let (_, step) = RoutingRun::begin("thread-1".to_owned(), Some(binding()));
    assert!(matches!(step, RoutingStep::Finish { outcome: Ok(RoutingOutcome::Unchanged) }));
    let (run, _) = RoutingRun::begin("thread-1".to_owned(), Some(tui_binding(false)));
    let (_, step) = run.advance(RoutingEvent::Claim(Some(claim("thr_other"))));
    assert!(matches!(step, RoutingStep::Finish { outcome: Ok(RoutingOutcome::Unchanged) }));
    let (run, _) = RoutingRun::begin("thread-1".to_owned(), Some(tui_binding(false)));
    let (_, step) = run.advance(RoutingEvent::Failed("disk".to_owned()));
    assert!(matches!(
        step,
        RoutingStep::Finish { outcome: Err(ControlError::Outside(reason)) } if reason == "disk"
    ));
}

#[test]
fn dead_owner_runtimes_are_brought_back() {
    let (stage, step) = begin_runtime(RuntimeOwnershipMode::DesktopOwner, RuntimeUse::Shared, false);
    assert!(matches!(step, RuntimeStep::ReadState));
    let (stage, step) =
        advance_runtime(stage, RuntimeEvent::Running { url: "ws://127.0.0.1:9".to_owned() });
    assert!(matches!(step, RuntimeStep::Connect { .. }));
    let (stage, step) = advance_runtime(stage, RuntimeEvent::Failed("refused".to_owned()));
    assert!(matches!(step, RuntimeStep::EnsureRuntime));
    let (_, step) = advance_runtime(stage, RuntimeEvent::Failed("still down".to_owned()));
    let RuntimeStep::Finish { outcome: Err(error) } = step else {
        panic!("expected an error");
    };
    assert_eq!(
        error.to_text("/work"),
        "failed to recover owner-managed runtime state for /work"
    );
}

#[test]
fn bound_workspaces_are_set_up_first() {
    for (ownership, next) in [
        (RuntimeOwnershipMode::SelfManaged, "EnsureRuntime"),
        (RuntimeOwnershipMode::DesktopOwner, "ReadState"),
    ] {
        let (stage, step) = begin_runtime(ownership, RuntimeUse::Bound, false);
        assert!(matches!(step, RuntimeStep::SetUp));
        let (_, step) = advance_runtime(stage, RuntimeEvent::Done);
        assert!(format!("{step:?}").starts_with(next));
    }
    let (stage, _) = begin_runtime(RuntimeOwnershipMode::SelfManaged, RuntimeUse::Bound, false);
    let (_, step) = advance_runtime(stage, RuntimeEvent::Failed("read-only".to_owned()));
    assert!(matches!(
        step,
        RuntimeStep::Finish { outcome: Err(ServiceError::Outside(reason)) } if reason == "read-only"
    ));
}

#[test]
fn own_runtimes_open_their_ingress() {
    let started = || RuntimeEvent::Running { url: "ws://h".to_owned() };
    let (stage, _) = begin_runtime(RuntimeOwnershipMode::SelfManaged, RuntimeUse::Control, false);
    let (_, step) = advance_runtime(stage, started());
    assert!(matches!(
        step,
        RuntimeStep::Finish { outcome: Err(ServiceError::MissingIngress) }
    ));
    let (stage, _) = begin_runtime(RuntimeOwnershipMode::SelfManaged, RuntimeUse::Control, true);
    let (stage, step) = advance_runtime(stage, started());
    assert!(matches!(step, RuntimeStep::EnsureIngress { .. }));
    let (_, step) = advance_runtime(stage, RuntimeEvent::Done);
    assert!(matches!(step, RuntimeStep::Finish { outcome: Ok(url) } if url == "ws://h"));
    assert_eq!(socket_address("ws://127.0.0.1:9"), Some("127.0.0.1:9"));
    assert_eq!(socket_address("http://x"), None);
}

#[test]
fn workspaces_are_bound_to_one_thread() {
    let (stage, step) = begin_bind("key".to_owned());
    assert!(matches!(step, BindStep::FindThreads));
    let (_, step) = advance_bind(stage, BindEvent::Threads(vec!["other".to_owned()]));
    let BindStep::Finish { outcome: Err(error) } = step else {
        panic!("expected a conflict");
    };
    assert_eq!(
        error.to_text("/work"),
        "Workspace bind failed: another active thread is already bound to `/work`."
    );
}

#[test]
fn bound_workspaces_get_a_session() {
    let (stage, _) = begin_bind("key".to_owned());
    let (stage, step) = advance_bind(stage, BindEvent::Threads(Vec::new()));
    assert!(matches!(step, BindStep::SetUp));
    let (stage, step) = advance_bind(stage, BindEvent::Done);
    assert!(matches!(step, BindStep::Prepare));
    let (stage, step) = advance_bind(stage, BindEvent::Done);
    assert!(matches!(step, BindStep::ReadMode));
    let (stage, step) = advance_bind(stage, BindEvent::Mode(ExecutionMode::Yolo));
    assert!(matches!(step, BindStep::Start { mode: ExecutionMode::Yolo }));
    let session = StartedSession {
        cwd: "/work".to_owned(),
        thread_id: "thr_new".to_owned(),
        execution: SessionExecutionSnapshot::from_mode(ExecutionMode::Yolo),
    };
    let (stage, step) = advance_bind(stage, BindEvent::Started(session));
    assert!(matches!(step, BindStep::Bind { session } if session.thread_id == "thr_new"));
    let (_, step) = advance_bind(stage, BindEvent::Done);
    assert!(matches!(step, BindStep::Finish { outcome: Ok(()) }));
    assert!(!matches!(begin_fresh_session().1, BindStep::FindThreads));
}

#[test]
fn only_active_threads_are_changed() {
    let (stage, step) = begin_change(ThreadChange::Archive);
    assert!(matches!(step, ChangeStep::FindThread));
    let (_, step) = advance_change(stage, ChangeEvent::Found { active: false });
    assert!(matches!(step, ChangeStep::Finish { outcome: Err(ServiceError::NotActive) }));
    let (stage, _) = begin_change(ThreadChange::Archive);
    let (stage, step) = advance_change(stage, ChangeEvent::Found { active: true });
    assert!(matches!(step, ChangeStep::Apply { change: ThreadChange::Archive }));
    let (stage, step) = advance_change(stage, ChangeEvent::Done);
    assert!(matches!(step, ChangeStep::Log { .. }));
    let (_, step) = advance_change(stage, ChangeEvent::Done);
    assert!(matches!(step, ChangeStep::Finish { outcome: Ok(()) }));
    assert_eq!(change_log(ThreadChange::Archive), ThreadLog::Archived);
    assert_eq!(
        change_log(ThreadChange::AdoptTui).to_line("telegram"),
        "Adopted the active TUI session from telegram."
    );
}

#[test]
fn heartbeat_ignores_stale_worker_endpoint_when_daemon_is_live() {
    let heartbeat = heartbeat_for_workspace(
        "/work".to_owned(),
        &runtime_state_file("/work"),
        "now".to_owned(),
        RuntimeStateReading::Read { daemon_live: true, ingress_live: None },
    );
    assert_eq!(heartbeat.app_server_status, "running");
    assert_eq!(heartbeat.runtime_readiness, "degraded");
    assert_eq!(heartbeat.last_error, None);
}

#[test]
fn heartbeat_marks_runtime_unavailable_when_daemon_is_down() {
    let heartbeat = heartbeat_for_workspace(
        "/work".to_owned(),
        &runtime_state_file("/work"),
        "now".to_owned(),
        RuntimeStateReading::Read { daemon_live: false, ingress_live: None },
    );
    assert_eq!(heartbeat.app_server_status, "stale");
    assert_eq!(heartbeat.runtime_readiness, "unavailable");
    assert_eq!(
        heartbeat.last_error.as_deref(),
        Some("workspace app-server daemon is unavailable")
    );
}

#[test]
fn heartbeat_names_the_file_that_cannot_be_read() {
    let file = runtime_state_file("/work");
    let heartbeat = heartbeat_for_workspace(
        "/work".to_owned(),
        &file,
        "now".to_owned(),
        RuntimeStateReading::Unreadable { error: "gone".to_owned() },
    );
    assert_eq!(
        heartbeat.last_error.as_deref(),
        Some("failed to read /work/.threadbridge/state/app-server/current.json: gone")
    );
    let heartbeat = heartbeat_for_workspace(
        "/work".to_owned(),
        &file,
        "now".to_owned(),
        RuntimeStateReading::Invalid { error: "bad".to_owned() },
    );
    assert_eq!(heartbeat.app_server_status, "invalid");
}

#[test]
fn reconciliation_takes_each_workspace_once() {
    let mut owner = DesktopRuntimeOwner::new();
    assert_eq!(owner.status.state, RuntimeOwnerStatus::idle().state);
    let mut reconciliation = owner.reconcile_managed_workspaces(
        vec!["/b".to_owned(), "/a".to_owned(), "/b".to_owned()],
        "then".to_owned(),
    );
    assert_eq!(reconciliation.report.scanned_workspaces, 2);
    for expected in ["/a", "/b"] {
        assert_eq!(reconciliation.next_workspace(), Some(expected));
        let heartbeat = heartbeat_for_workspace(
            expected.to_owned(),
            "f",
            "now".to_owned(),
            RuntimeStateReading::Read { daemon_live: true, ingress_live: Some(true) },
        );
        owner.workspace_ensured(&mut reconciliation, Some("ws://x"), heartbeat);
    }
    assert_eq!(reconciliation.next_workspace(), None);
    let (owner, report) = owner.finish_reconcile(&reconciliation, "now".to_owned());
    assert_eq!(report.ensured_workspaces, 2);
    assert_eq!(report.ensured_ingresses, 2);
    assert_eq!(owner.status.state, "healthy");
    assert_eq!(owner.workspace_heartbeat("/a").unwrap().runtime_readiness, "ready");
    assert!(owner.workspace_heartbeat("/c").is_none());
}

#[test]
fn failed_reconciliations_keep_the_last_success() {
    let mut owner = DesktopRuntimeOwner::new();
    owner.status.last_successful_reconcile_at = Some("before".to_owned());
    let reconciliation =
        owner.reconcile_managed_workspaces(vec!["/a".to_owned()], "then".to_owned());
    owner.workspace_failed(&reconciliation, "down", "now".to_owned(), "now".to_owned());
    assert_eq!(owner.status.state, "error");
    assert_eq!(owner.status.last_error.as_deref(), Some("down"));
    assert_eq!(owner.status.last_successful_reconcile_at.as_deref(), Some("before"));
    assert_eq!(
        owner.workspace_heartbeat("/a").unwrap().app_server_status,
        "unavailable"
    );
}

#[test]
fn outbox_items_must_say_something() {
    let text = |said: &str| TelegramOutboxItem::Text { text: said.to_owned() };
    let photo = |path: &str| TelegramOutboxItem::Photo { path: path.to_owned(), caption: None };
    let outbox = |items| TelegramOutbox { items };
    assert!(parse_telegram_outbox(outbox(vec![text("hi"), photo("a.png")])).is_ok());
    let error = parse_telegram_outbox(outbox(vec![text("hi"), text(" ")])).unwrap_err();
    assert_eq!(error, OutboxError::InvalidText);
    assert_eq!(error.to_text(), "Invalid telegram outbox text item.");
    let error = parse_telegram_outbox(outbox(vec![photo(""), text(" ")])).unwrap_err();
    assert_eq!(error.to_text(), "Invalid telegram outbox file item.");
}
