use threadbridge::execution_mode::{ExecutionMode, SessionExecutionSnapshot};
use threadbridge::repository::{
    SessionBinding, TranscriptMirrorDelivery, TranscriptMirrorOrigin, TranscriptMirrorPhase,
    TranscriptMirrorRole,
};
use threadbridge::telegram_runtime::thread_flow::{
    parse_execution_mode_argument, parse_launch_command_target, render_stop_started_message,
    render_working_session_records, render_working_sessions, LaunchCommandTarget,
};
use threadbridge::working_sessions::{
    WorkingSessionRecordKind, WorkingSessionRecordView, WorkingSessionSummaryView,
};
use threadbridge::workspace_status::{
    SessionActivitySource, SessionCurrentStatus, WorkspaceStatusPhase,
};

#[test]
fn thread_flow_module_compiles_without_attach_helpers() {}

#[test]
fn launch_command_parser_accepts_new_continue_current_and_resume() {
    assert_eq!(
        parse_launch_command_target("new"),
        Some(LaunchCommandTarget::New)
    );
    assert_eq!(
        parse_launch_command_target("continue_current"),
        Some(LaunchCommandTarget::Current)
    );
    assert_eq!(
        parse_launch_command_target("resume thr_123"),
        Some(LaunchCommandTarget::Resume("thr_123".to_owned()))
    );
    assert_eq!(parse_launch_command_target("resume"), None);
    assert_eq!(parse_launch_command_target("unknown"), None);
}

#[test]
fn execution_mode_argument_parser_accepts_known_aliases() {
    assert_eq!(
        parse_execution_mode_argument("full_auto"),
        Some(ExecutionMode::FullAuto)
    );
    assert_eq!(
        parse_execution_mode_argument("full-auto"),
        Some(ExecutionMode::FullAuto)
    );
    assert_eq!(
        parse_execution_mode_argument("yolo"),
        Some(ExecutionMode::Yolo)
    );
    assert_eq!(parse_execution_mode_argument("plan"), None);
}

#[test]
fn working_session_renderers_show_expected_commands() {
    let binding = SessionBinding::fresh(
        Some("/tmp/workspace".to_owned()),
        Some("thr_current".to_owned()),
        SessionExecutionSnapshot::from_mode(ExecutionMode::FullAuto),
    );
    let summaries = vec![WorkingSessionSummaryView {
        session_id: "thr_current".to_owned(),
        thread_key: "thread-1".to_owned(),
        workspace_cwd: "/tmp/workspace".to_owned(),
        started_at: Some("2026-03-25T00:00:00.000Z".to_owned()),
        updated_at: "2026-03-25T00:01:00.000Z".to_owned(),
        run_status: "running".to_owned(),
        run_phase: "turn_finalizing".to_owned(),
        origins_seen: vec![
            TranscriptMirrorOrigin::Telegram,
            TranscriptMirrorOrigin::Tui,
        ],
        record_count: 3,
        tool_use_count: 1,
        has_final_reply: true,
        last_error: None,
    }];
    let rendered_summaries = render_working_sessions(&binding, &summaries);
    assert!(rendered_summaries.contains("/session_log <session_id>"));
    assert!(rendered_summaries.contains("thr_current"));
    assert!(rendered_summaries.contains("current"));
    assert!(rendered_summaries.contains("running/finalizing"));

    let rendered_records = render_working_session_records(
        "thr_current",
        &vec![WorkingSessionRecordView {
            timestamp: "2026-03-25T00:00:00.000Z".to_owned(),
            session_id: "thr_current".to_owned(),
            kind: WorkingSessionRecordKind::ProcessTool,
            origin: Some(TranscriptMirrorOrigin::Telegram),
            role: Some(TranscriptMirrorRole::Assistant),
            summary: "Tool call finished".to_owned(),
            text: "Tool call finished".to_owned(),
            delivery: Some(TranscriptMirrorDelivery::Process),
            phase: Some(TranscriptMirrorPhase::Tool),
            source_ref: "transcript_mirror".to_owned(),
        }],
    );
    assert!(rendered_records.contains("process_tool"));
    assert!(rendered_records.contains("Tool call finished"));
}

#[test]
fn stop_started_message_is_idempotent_for_finalizing_turns() {
    let snapshot = SessionCurrentStatus {
        schema_version: 2,
        workspace_cwd: "/tmp/workspace".to_owned(),
        session_id: "thr_current".to_owned(),
        activity_source: SessionActivitySource::ManagedRuntime,
        live: true,
        phase: WorkspaceStatusPhase::TurnFinalizing,
        shell_pid: None,
        child_pid: None,
        child_pgid: None,
        child_command: None,
        client: None,
        turn_id: Some("turn-1".to_owned()),
        summary: None,
        pending_interrupt_turn_id: None,
        pending_interrupt_requested_at: None,
        observer_attach_mode: None,
        updated_at: "2026-03-27T00:00:00.000Z".to_owned(),
    };

    assert!(render_stop_started_message(&snapshot).contains("already requested"));
}
