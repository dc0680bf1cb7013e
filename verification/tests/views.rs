use threadbridge::execution_mode::{ExecutionMode, SessionExecutionSnapshot};
use threadbridge::repository::{
    RecentCodexSessionEntry, RunningInputPolicy, SessionBinding, ThreadMetadata, ThreadScope,
    ThreadStatus, TranscriptMirrorDelivery, TranscriptMirrorEntry, TranscriptMirrorOrigin,
    TranscriptMirrorRole,
};
use threadbridge::runtime_control::{
    workspace_binding_summary, workspace_launch_config_for_record, ControlOutcome,
};
use threadbridge::runtime_protocol::{
    aggregate_running_status, build_archived_thread_views, build_thread_views,
    build_workspace_views, read_workspace_runtime_health, workspace_recovery_hint,
    RuntimeControlAction, RuntimeControlActionRequest, RuntimeControlActionResult,
    RuntimeInteractionKind, ThreadViewInput, WorkspaceViewInput,
};
use threadbridge::collaboration_mode::CollaborationMode;
use threadbridge::telegram_probe::checked_render_markdown_to_telegram_html;
use threadbridge::telegram_runtime::codex_home_session_mirror::{
    binding_is_eligible, candidate_entry, cursor_after, failed_cursor,
    latest_transcript_final_timestamp, session_meta_source_originator, shrunk_cursor,
    CodexHomeMirrorCandidate, CodexHomeMirrorCursor, CodexHomeParseResult, CursorGoal,
};
use threadbridge::telegram_runtime::command_flow::{control_origin, generated_title_log};
use threadbridge::telegram_runtime::commands::Command;
use threadbridge::telegram_runtime::final_reply::{attachment_fits, overflow_attachment_path};
use threadbridge::telegram_runtime::image_batches::{
    analysis_summary, batch_log, image_batch_markup, image_log,
};
use threadbridge::telegram_runtime::media::{
    outbox_notice_text, outbox_text_intent, IncomingImage, OutboxNotice, TelegramDeliverySurface,
};
use threadbridge::telegram_runtime::preview::{
    advance_draft, next_preview_draft_id, render_draft_html, DraftStage, TurnPreview,
};
use threadbridge::telegram_runtime::restore::{restored_log, restored_notice};
use threadbridge::telegram_runtime::status_sync::{
    drop_workspace_prompts, local_prompt_tracking_key, mirror_workspaces, retain_active,
    MirrorThread,
};
use threadbridge::telegram_runtime::text_flow::{turn_failure, turn_failure_log};
use threadbridge::telegram_runtime::thread_flow::{
    format_error_chain, is_nonfatal_collaboration_mode_error, stop_fallback_log,
};
use threadbridge::telegram_runtime::title_sync::adoption_prompt_is_due;
use threadbridge::telegram_runtime::TelegramSystemIntent;
use threadbridge::thread_state::resolve_thread_state;

fn metadata(thread_key: &str) -> ThreadMetadata {
    ThreadMetadata {
        archived_at: None,
        chat_id: 1,
        created_at: "2026-03-22T00:00:00.000Z".to_owned(),
        last_codex_turn_at: None,
        message_thread_id: Some(7),
        previous_message_thread_ids: Vec::new(),
        running_input_policy: RunningInputPolicy::default(),
        scope: ThreadScope::Thread,
        session_broken: false,
        session_broken_at: None,
        session_broken_reason: None,
        status: ThreadStatus::Active,
        title: Some("Workspace".to_owned()),
        updated_at: "2026-03-22T00:00:00.000Z".to_owned(),
        thread_key: thread_key.to_owned(),
    }
}

fn binding() -> SessionBinding {
    SessionBinding::fresh(
        Some("/work".to_owned()),
        Some("thr_current".to_owned()),
        SessionExecutionSnapshot::from_mode(ExecutionMode::FullAuto),
    )
}

fn workspace_input(thread_key: &str) -> WorkspaceViewInput {
    WorkspaceViewInput {
        metadata: metadata(thread_key),
        binding: Some(binding()),
        workspace_execution_mode: ExecutionMode::FullAuto,
        runtime_status: read_workspace_runtime_health("/work", true, None),
        recent_sessions: Vec::new(),
        resolved_state: Err("workspace runtime state is unavailable for /work".to_owned()),
        hcodex_available: true,
    }
}

fn cursor() -> CodexHomeMirrorCursor {
    CodexHomeMirrorCursor {
        thread_key: "key".to_owned(),
        session_id: "thr_a".to_owned(),
        log_path: "/log".to_owned(),
        last_offset: 50,
        last_line: 3,
        last_turn_id: Some("turn-1".to_owned()),
        updated_at: "then".to_owned(),
        last_error: None,
    }
}

fn final_entry(session_id: &str, timestamp: &str) -> TranscriptMirrorEntry {
    TranscriptMirrorEntry {
        timestamp: timestamp.to_owned(),
        session_id: session_id.to_owned(),
        turn_id: None,
        origin: TranscriptMirrorOrigin::Telegram,
        role: TranscriptMirrorRole::Assistant,
        delivery: TranscriptMirrorDelivery::Final,
        phase: None,
        text: "done".to_owned(),
    }
}

#[test]
fn build_thread_views_ignores_stale_metadata_broken_aliases() {
    let mut stale = metadata("key");
    stale.session_broken = true;
    stale.session_broken_reason = Some("stale metadata".to_owned());
    let state = resolve_thread_state(&stale, Some(&binding()), &None);
    let views = build_thread_views(vec![ThreadViewInput {
        metadata: stale,
        binding: Some(binding()),
        workspace_execution_mode: ExecutionMode::FullAuto,
        resolved_state: Ok(state),
    }]);
    assert_eq!(views[0].binding_status, "healthy");
    assert_eq!(views[0].session_broken_reason, None);
}

#[test]
fn build_thread_views_marks_missing_worker_as_unavailable() {
    let views = build_thread_views(vec![ThreadViewInput {
        metadata: metadata("key"),
        binding: Some(binding()),
        workspace_execution_mode: ExecutionMode::FullAuto,
        resolved_state: Err("gone".to_owned()),
    }]);
    assert_eq!(views[0].run_status, "unavailable");
    assert_eq!(views[0].run_phase, "unavailable");
}

#[test]
fn build_workspace_views_marks_missing_worker_as_unavailable() {
    let views = build_workspace_views(vec![workspace_input("key")]);
    assert_eq!(views[0].run_status, "unavailable");
    assert_eq!(views[0].run_phase, "unavailable");
    assert!(!views[0].conflict);
    assert_eq!(views[0].hcodex_path, "/work/.threadbridge/bin/hcodex");
}

#[test]
fn shared_workspaces_are_a_conflict() {
    let views = build_workspace_views(vec![workspace_input("a"), workspace_input("b")]);
    assert!(views.iter().all(|view| view.conflict));
}

#[test]
fn archived_views_keep_their_order() {
    let mut archived = metadata("key");
    archived.archived_at = Some("2026-03-23T00:00:00.000Z".to_owned());
    archived.previous_message_thread_ids = vec![3, 4];
    let views = build_archived_thread_views(vec![
        (archived, Some(binding())),
        (metadata("other"), None),
    ]);
    assert_eq!(views[0].workspace_cwd.as_deref(), Some("/work"));
    assert_eq!(views[0].previous_message_thread_ids, vec![3, 4]);
    assert_eq!(views[1].thread_key, "other");
    assert_eq!(views[1].workspace_cwd, None);
}

#[test]
fn missing_heartbeats_are_told() {
    let pending = read_workspace_runtime_health("/work", true, None);
    assert_eq!(pending.source, "owner_pending");
    assert_eq!(
        pending.last_error.as_deref(),
        Some("desktop runtime owner has not published a heartbeat for /work yet")
    );
    let without = read_workspace_runtime_health("/work", false, None);
    assert_eq!(without.source, "owner_required");
    let hint = workspace_recovery_hint(true, "healthy", None, &without, false, None);
    assert!(hint.unwrap().starts_with("Resolve the active workspace binding conflict first."));
    assert_eq!(aggregate_running_status(&["running", "running"]), "running");
}

#[test]
fn workspace_launch_config_uses_current_and_recent_sessions() {
    let config = workspace_launch_config_for_record(
        &metadata("key"),
        &binding(),
        ExecutionMode::FullAuto,
        vec![RecentCodexSessionEntry {
            session_id: "thr_recent".to_owned(),
            updated_at: "2026-03-22T00:00:00.000Z".to_owned(),
            execution_mode: None,
        }],
        true,
    )
    .unwrap();
    assert!(config.hcodex_available);
    assert!(config.launch_new_command.contains("--thread-key"));
    assert!(config
        .launch_current_command
        .as_deref()
        .is_some_and(|command| command.contains("resume 'thr_current'")));
    assert!(config
        .launch_resume_commands
        .iter()
        .any(|command| command.contains("resume 'thr_recent'")));
    let mut unbound = binding();
    unbound.workspace_cwd = None;
    assert!(workspace_launch_config_for_record(
        &metadata("key"),
        &unbound,
        ExecutionMode::FullAuto,
        Vec::new(),
        true,
    )
    .is_none());
}

#[test]
fn outcomes_are_answered_under_their_action() {
    let envelope = ControlOutcome::CollaborationMode { mode: CollaborationMode::Plan }
        .into_envelope("key".to_owned());
    assert!(envelope.ok);
    assert_eq!(envelope.action, RuntimeControlAction::SetThreadCollaborationMode);
    assert!(matches!(
        envelope.result,
        RuntimeControlActionResult::SetThreadCollaborationMode {
            mode: CollaborationMode::Plan,
            ..
        }
    ));
    assert!(RuntimeControlActionRequest::StartFreshSession.validate());
    assert_eq!(RuntimeInteractionKind::TurnCompleted.as_str(), "turn_completed");
    assert_eq!(workspace_binding_summary(&metadata("key")).thread_key, "key");
}

#[test]
fn probes_with_whole_anchors_are_rendered() {
    assert_eq!(
        checked_render_markdown_to_telegram_html("**a**").as_deref(),
        Some("<b>a</b>")
    );
}

#[test]
fn home_messages_become_transcript_entries() {
    let candidate = CodexHomeMirrorCandidate {
        line_no: 1,
        offset_end: 10,
        timestamp: "2026-05-08T00:00:00.000Z".to_owned(),
        turn_id: "turn-1".to_owned(),
        role: TranscriptMirrorRole::Assistant,
        text: "done".to_owned(),
    };
    let entry = candidate_entry(&candidate, "thr_a");
    assert_eq!(entry.session_id, "thr_a");
    assert_eq!(entry.turn_id.as_deref(), Some("turn-1"));
    assert_eq!(entry.delivery, TranscriptMirrorDelivery::Final);
    let entries = vec![
        final_entry("thr_a", "2026-05-08T00:00:03.000Z"),
        final_entry("thr_b", "2026-05-08T00:00:09.000Z"),
        final_entry("thr_a", "2026-05-08T00:00:01.000Z"),
    ];
    assert_eq!(
        latest_transcript_final_timestamp(&entries, "thr_a").as_deref(),
        Some("2026-05-08T00:00:03.000Z")
    );
    assert_eq!(latest_transcript_final_timestamp(&entries, "thr_c"), None);
}

#[test]
fn cursors_follow_their_log() {
    let result = CodexHomeParseResult {
        candidates: Vec::new(),
        last_line: 9,
        last_turn_id: Some("turn-2".to_owned()),
        malformed_lines: 0,
    };
    let goal = CursorGoal::Read { log_path: "/log".to_owned(), len: 80 };
    let read = cursor_after(goal, &result, "key", "thr_a", "now".to_owned());
    assert_eq!(read.last_offset, 80);
    assert_eq!(read.last_line, 9);
    let shrunk = shrunk_cursor(cursor(), 5, "now".to_owned());
    assert_eq!(shrunk.last_offset, 5);
    assert_eq!(shrunk.updated_at, "now");
    let failed = failed_cursor(Some(cursor()), "key", "thr_a", "boom".to_owned(), "now".to_owned());
    assert_eq!(failed.last_error.as_deref(), Some("boom"));
    assert_eq!(failed.last_offset, 50);
    let first = failed_cursor(None, "key", "thr_a", "boom".to_owned(), "now".to_owned());
    assert_eq!(first.last_offset, 0);
}

#[test]
fn home_sessions_tell_where_they_come_from() {
    let line = r#"{"type":"session_meta","payload":{"source":"vscode","originator":"threadbridge"}}"#;
    assert_eq!(
        session_meta_source_originator(line),
        (Some("vscode".to_owned()), Some("threadbridge".to_owned()))
    );
    assert!(binding_is_eligible(&metadata("key"), &binding()));
    let broken = binding().broken("lost".to_owned(), "now");
    assert!(!binding_is_eligible(&metadata("key"), &broken));
}

#[test]
fn drafts_are_sent_when_they_change() {
    let mut preview = TurnPreview::new(3500, 800);
    preview.renderer.consume_preview_text("hello");
    let draft = preview.pending_draft(false).unwrap();
    assert_eq!(draft, "○ hello");
    assert_eq!(preview.pending_draft(true), None);
    preview.draft_sent(draft);
    assert_eq!(preview.pending_draft(false), None);
    assert_eq!(render_draft_html("○ **hi**"), "○ <b>hi</b>");
    assert_eq!(advance_draft(DraftStage::Html, false), DraftStage::Plain);
    assert_eq!(advance_draft(DraftStage::Plain, false), DraftStage::GivenUp);
    assert_eq!(next_preview_draft_id(5), (5, 6));
    assert_eq!(next_preview_draft_id(0), (1, 2));
    assert_eq!(next_preview_draft_id(i32::MAX), (i32::MAX, i32::MIN));
}

#[test]
fn prompts_are_forgotten_with_their_workspace() {
    let a = local_prompt_tracking_key("/a", "thr_1");
    let b = local_prompt_tracking_key("/b", "thr_1");
    let keys = vec![a.clone(), b.clone()];
    assert_eq!(drop_workspace_prompts(&keys, "/a"), vec![b.clone()]);
    assert_eq!(retain_active(&keys, &vec![a.clone()]), vec![a]);
    let thread = |workspace: Option<&str>, archived| MirrorThread {
        thread_key: "key".to_owned(),
        archived,
        workspace_cwd: workspace.map(str::to_owned),
        message_thread_id: Some(7),
    };
    assert_eq!(
        mirror_workspaces(&vec![
            thread(Some("/b"), false),
            thread(Some("/a"), false),
            thread(Some("/b"), false),
            thread(None, false),
        ]),
        vec!["/a", "/b"]
    );
}

#[test]
fn notices_are_worded() {
    assert_eq!(analysis_summary(None), "Analyze pending image batch");
    assert_eq!(batch_log(2), "Image batch updated: 2 image(s) waiting for analysis.");
    assert_eq!(
        image_log(&IncomingImage {
            caption: Some("look".to_owned()),
            file_id: "f".to_owned(),
            file_name: "a.png".to_owned(),
            mime_type: "image/png".to_owned(),
        }),
        "[image] a.png | caption: look"
    );
    assert_eq!(image_batch_markup("b").rows[0][0].data, "image_batch_analyze:b");
    assert_eq!(
        restored_log("T", 9),
        "Thread restored from archive into Telegram thread \"T\" (message_thread_id 9)."
    );
    assert_eq!(restored_notice("T"), "Restored into \"T\". Continue there.");
    assert_eq!(
        turn_failure("thr_a", "/work"),
        "failed to run codex turn for thread thr_a in /work"
    );
    assert_eq!(turn_failure_log("boom"), "Codex turn failed: boom");
    assert_eq!(generated_title_log(" T "), "Generated title: T");
    assert_eq!(control_origin(Command::Stop), "telegram /stop");
    assert_eq!(
        stop_fallback_log("thr_a", "turn-1"),
        "Interrupted session `thr_a` turn `turn-1` after `/stop` fallback cleanup."
    );
    assert_eq!(outbox_notice_text(TelegramDeliverySurface::Status, "x"), "[status] x");
    assert_eq!(
        outbox_text_intent(TelegramDeliverySurface::Content),
        TelegramSystemIntent::Info
    );
    assert!(OutboxNotice::PhotoTooLarge.to_text("a.png").contains("a.png"));
    assert!(attachment_fits(1));
    assert!(!attachment_fits(u64::MAX));
    assert!(overflow_attachment_path("/state", 5).starts_with("/state/"));
}

#[test]
fn errors_are_told_with_their_causes() {
    assert_eq!(
        format_error_chain(&vec!["a".to_owned(), "  ".to_owned(), "b".to_owned()]),
        "a | b"
    );
    assert_eq!(format_error_chain(&Vec::new()), "unknown error");
    assert!(is_nonfatal_collaboration_mode_error("mode: no", "mode:"));
    assert!(!is_nonfatal_collaboration_mode_error("no mode:", "mode:"));
}

#[test]
fn adoption_is_asked_for_once() {
    let mut pending = binding();
    pending.tui_active_codex_thread_id = Some("thr_tui".to_owned());
    pending.tui_session_adoption_pending = true;
    assert!(adoption_prompt_is_due(Some(7), Some(&pending)));
    assert!(!adoption_prompt_is_due(None, Some(&pending)));
    pending.tui_session_adoption_prompt_message_id = Some(3);
    assert!(!adoption_prompt_is_due(Some(7), Some(&pending)));
    assert!(!adoption_prompt_is_due(Some(7), Some(&binding())));
}
