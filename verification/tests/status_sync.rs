use threadbridge::repository::{
    RunningInputPolicy, ThreadMetadata, ThreadScope, ThreadStatus, TranscriptMirrorOrigin,
    TranscriptMirrorRole,
};
use threadbridge::telegram_runtime::preview::TurnPreview;
use threadbridge::telegram_runtime::status_sync::{
    busy_command_message, busy_text_message, initial_workspace_event_offset,
    is_hcodex_ingress_client, item_id_from_event_payload, local_mirror_entry_from_event,
    preview_event_run_end, render_topic_title, topic_title_suffix_label, tui_adoption_prompt_text,
    turn_id_from_event_payload, plan_workspace_mirror, title_to_apply, workspace_local_conflict,
    MirrorEvent, MirrorPreviewState, MirrorRun, MirrorStep, MirrorThread, WorkspaceAggregateStatus,
    WorkspacePlan, WorkspaceStatusEventRecord,
};
use threadbridge::workspace_status::{
    LocalTuiSessionClaim, SessionActivitySource, SessionCurrentStatus, WorkspaceStatusPhase,
};

fn json(source: &str) -> serde_json::Value {
    serde_json::from_str(source).unwrap()
}

fn record(title: Option<&str>, session_broken: bool) -> ThreadMetadata {
    ThreadMetadata {
        archived_at: None,
        chat_id: 1,
        created_at: "2026-03-19T00:00:00.000Z".to_owned(),
        last_codex_turn_at: None,
        message_thread_id: Some(123),
        previous_message_thread_ids: Vec::new(),
        running_input_policy: RunningInputPolicy::default(),
        scope: ThreadScope::Thread,
        session_broken,
        session_broken_at: None,
        session_broken_reason: None,
        status: ThreadStatus::Active,
        title: title.map(str::to_owned),
        updated_at: "2026-03-19T00:00:00.000Z".to_owned(),
        thread_key: "thread-key".to_owned(),
    }
}

#[test]
fn workspace_status_helper_recognizes_hcodex_ingress_client_aliases() {
    assert!(is_hcodex_ingress_client(Some(
        "threadbridge-hcodex-ingress"
    )));
    assert!(is_hcodex_ingress_client(Some("threadbridge-tui-proxy")));
    assert!(!is_hcodex_ingress_client(Some("codex-cli")));
    assert!(!is_hcodex_ingress_client(None));
}

#[test]
fn busy_messages_distinguish_turn_finalizing() {
    let snapshot = SessionCurrentStatus {
        schema_version: 2,
        workspace_cwd: "/tmp/workspace".to_owned(),
        session_id: "thr_current".to_owned(),
        activity_source: SessionActivitySource::ManagedRuntime,
        live: true,
        phase: WorkspaceStatusPhase::TurnFinalizing,
        shell_pid: None,
        child_pid: None,
        child_pgid: None,
        child_command: None,
        client: None,
        turn_id: Some("turn-1".to_owned()),
        summary: None,
        pending_interrupt_turn_id: None,
        pending_interrupt_requested_at: None,
        observer_attach_mode: None,
        updated_at: "2026-03-27T00:00:00.000Z".to_owned(),
    };

    assert!(
        busy_text_message(&snapshot, false).contains("settling after an interrupt request")
    );
    assert!(busy_command_message(&snapshot).contains("settling after an interrupt request"));
}

#[test]
fn render_title_uses_plain_base_for_healthy_thread() {
    let title = render_topic_title(
        &record(None, false),
        Some("/tmp/example-workspace"),
        false,
    );
    assert_eq!(title, "example-workspace");
}

#[test]
fn tui_adoption_prompt_uses_question_header_without_prefix() {
    assert_eq!(
        tui_adoption_prompt_text(),
        "Question: 後續對話是否以 TUI session"
    );
}

#[test]
fn render_title_truncates_before_broken_suffix() {
    let long_title = "x".repeat(140);
    let title = render_topic_title(
        &record(Some(&long_title), false),
        Some("/tmp/workspace"),
        true,
    );
    assert!(title.ends_with(" · broken"));
    assert!(title.chars().count() <= 128);
}

#[test]
fn render_title_includes_broken_suffix_only() {
    let title = render_topic_title(
        &record(Some("Broken"), true),
        Some("/tmp/workspace"),
        true,
    );
    assert_eq!(title, "Broken · broken");
}

fn test_mirror_preview_state() -> MirrorPreviewState {
    MirrorPreviewState::new(TurnPreview::new(3500, 800))
}

#[test]
fn title_suffix_label_reports_broken_only() {
    assert_eq!(topic_title_suffix_label(false), "none");
    assert_eq!(topic_title_suffix_label(true), "broken");
}

#[test]
fn mirror_preview_state_keeps_same_turn_ownership() {
    let mut preview = test_mirror_preview_state();
    preview.begin_turn(Some("turn-1"));
    preview.set_ownership(Some("turn-1"), true);
    preview.begin_turn(Some("turn-1"));
    assert!(preview.owns_turn(Some("turn-1")));
}

#[test]
fn mirror_preview_state_resets_when_turn_changes() {
    let mut preview = test_mirror_preview_state();
    preview.begin_turn(Some("turn-1"));
    preview.set_ownership(Some("turn-1"), true);
    preview.active_item_id = Some("item-1".to_owned());
    preview.latest_preview_text = "Drafting from the old turn".to_owned();
    preview.begin_turn(Some("turn-2"));
    assert_eq!(preview.active_turn_id.as_deref(), Some("turn-2"));
    assert_eq!(preview.active_item_id, None);
    assert!(!preview.owns_turn(Some("turn-1")));
    assert!(!preview.owns_turn(Some("turn-2")));
    assert!(preview.latest_preview_text.is_empty());
}

#[test]
fn mirror_preview_state_skips_regressive_preview_for_same_turn_and_item() {
    let mut preview = test_mirror_preview_state();
    preview.begin_turn(Some("turn-1"));
    preview.set_ownership(Some("turn-1"), true);
    preview.active_item_id = Some("item-1".to_owned());
    preview.latest_preview_text = "Drafting a longer preview".to_owned();

    assert!(preview.should_skip_regressive_preview(Some("turn-1"), Some("item-1"), "Drafting"));
    assert!(!preview.should_skip_regressive_preview(
        Some("turn-1"),
        Some("item-1"),
        "Drafting a longer preview"
    ));
    assert!(!preview.should_skip_regressive_preview(
        Some("turn-1"),
        Some("item-1"),
        "Drafting a longer preview with more detail"
    ));
    assert!(!preview.should_skip_regressive_preview(
        Some("turn-1"),
        Some("item-2"),
        "Drafting"
    ));
}

#[test]
fn mirror_preview_state_does_not_treat_new_turn_prefix_as_regression() {
    let mut preview = test_mirror_preview_state();
    preview.begin_turn(Some("turn-1"));
    preview.active_item_id = Some("item-1".to_owned());
    preview.latest_preview_text = "Drafting a longer preview".to_owned();
    preview.begin_turn(Some("turn-2"));

    assert!(!preview.should_skip_regressive_preview(
        Some("turn-2"),
        Some("item-1"),
        "Drafting"
    ));
}

#[test]
fn item_id_from_event_payload_reads_preview_item_id() {
    let payload = json(r##"{
        "session_id": "thr_tui",
        "turn_id": "turn-1",
        "item_id": "item-9",
        "text": "draft"
    }"##);
    assert_eq!(
        item_id_from_event_payload(&payload).as_deref(),
        Some("item-9")
    );
}

#[test]
fn turn_id_from_event_payload_reads_preview_turn_id() {
    let payload = json(r##"{
        "session_id": "thr_tui",
        "turn_id": "turn-1",
        "text": "draft"
    }"##);
    assert_eq!(
        turn_id_from_event_payload(&payload).as_deref(),
        Some("turn-1")
    );
}

#[test]
fn local_user_prompt_event_creates_local_user_entry() {
    let event = WorkspaceStatusEventRecord {
        schema_version: 2,
        event: "user_prompt_submitted".to_owned(),
        source: SessionActivitySource::Tui,
        workspace_cwd: "/tmp/workspace".to_owned(),
        occurred_at: "2026-03-19T00:00:00.000Z".to_owned(),
        payload: json(r##"{
            "session_id": "thr_cli",
            "prompt": "inspect this repo"
        }"##),
    };
    let entry =
        local_mirror_entry_from_event(&event, Some("thr_cli")).unwrap();
    assert_eq!(entry.origin, TranscriptMirrorOrigin::Local);
    assert_eq!(entry.role, TranscriptMirrorRole::User);
    assert_eq!(entry.text, "inspect this repo");
}

#[test]
fn tui_user_prompt_event_creates_tui_user_entry() {
    let event = WorkspaceStatusEventRecord {
        schema_version: 2,
        event: "user_prompt_submitted".to_owned(),
        source: SessionActivitySource::Tui,
        workspace_cwd: "/tmp/workspace".to_owned(),
        occurred_at: "2026-03-19T00:00:00.000Z".to_owned(),
        payload: json(r##"{
            "session_id": "thr_tui",
            "prompt": "continue the tui session",
            "client": "threadbridge-hcodex-ingress"
        }"##),
    };
    let entry = local_mirror_entry_from_event(&event, Some("thr_tui")).unwrap();
    assert_eq!(entry.origin, TranscriptMirrorOrigin::Tui);
    assert_eq!(entry.role, TranscriptMirrorRole::User);
    assert_eq!(entry.text, "continue the tui session");
}

#[test]
fn initial_offset_starts_from_local_tui_claim_started_at() {
    let local_tui_claim = LocalTuiSessionClaim {
        schema_version: 2,
        workspace_cwd: "/tmp/workspace".to_owned(),
        thread_key: "thread-key".to_owned(),
        shell_pid: 42,
        session_id: Some("thr_tui".to_owned()),
        child_pid: Some(77),
        child_pgid: None,
        child_command: Some("codex --remote".to_owned()),
        started_at: "2026-03-19T00:00:10.000Z".to_owned(),
        updated_at: "2026-03-19T00:00:10.000Z".to_owned(),
    };
    let events = vec![
        WorkspaceStatusEventRecord {
            schema_version: 2,
            event: "user_prompt_submitted".to_owned(),
            source: SessionActivitySource::Tui,
            workspace_cwd: "/tmp/workspace".to_owned(),
            occurred_at: "2026-03-19T00:00:00.000Z".to_owned(),
            payload: json(r##"{"session_id": "thr_old", "prompt": "old"}"##),
        },
        WorkspaceStatusEventRecord {
            schema_version: 2,
            event: "user_prompt_submitted".to_owned(),
            source: SessionActivitySource::Tui,
            workspace_cwd: "/tmp/workspace".to_owned(),
            occurred_at: "2026-03-19T00:00:11.000Z".to_owned(),
            payload: json(r##"{"session_id": "thr_tui", "prompt": "new"}"##),
        },
    ];

    assert_eq!(initial_workspace_event_offset(&events, &local_tui_claim), 1);
}

#[test]
fn preview_event_run_end_collapses_consecutive_same_turn_snapshots() {
    let events = vec![
        WorkspaceStatusEventRecord {
            schema_version: 2,
            event: "preview_text".to_owned(),
            source: SessionActivitySource::Tui,
            workspace_cwd: "/tmp/workspace".to_owned(),
            occurred_at: "2026-03-19T00:00:00.000Z".to_owned(),
            payload: json(r##"{"session_id": "thr_tui", "turn_id": "turn-1", "text": "a"}"##),
        },
        WorkspaceStatusEventRecord {
            schema_version: 2,
            event: "preview_text".to_owned(),
            source: SessionActivitySource::Tui,
            workspace_cwd: "/tmp/workspace".to_owned(),
            occurred_at: "2026-03-19T00:00:00.010Z".to_owned(),
            payload: json(r##"{"session_id": "thr_tui", "turn_id": "turn-1", "text": "ab"}"##),
        },
        WorkspaceStatusEventRecord {
            schema_version: 2,
            event: "preview_text".to_owned(),
            source: SessionActivitySource::Tui,
            workspace_cwd: "/tmp/workspace".to_owned(),
            occurred_at: "2026-03-19T00:00:00.020Z".to_owned(),
            payload: json(r##"{"session_id": "thr_tui", "turn_id": "turn-1", "text": "abc"}"##),
        },
        WorkspaceStatusEventRecord {
            schema_version: 2,
            event: "turn_completed".to_owned(),
            source: SessionActivitySource::Tui,
            workspace_cwd: "/tmp/workspace".to_owned(),
            occurred_at: "2026-03-19T00:00:01.000Z".to_owned(),
            payload: json(r##"{"thread-id": "thr_tui", "turn-id": "turn-1", "last-assistant-message": "done"}"##),
        },
    ];

    assert_eq!(preview_event_run_end(&events, 0), 3);
}

#[test]
fn preview_event_run_end_stops_at_turn_or_session_boundary() {
    let events = vec![
        WorkspaceStatusEventRecord {
            schema_version: 2,
            event: "preview_text".to_owned(),
            source: SessionActivitySource::Tui,
            workspace_cwd: "/tmp/workspace".to_owned(),
            occurred_at: "2026-03-19T00:00:00.000Z".to_owned(),
            payload: json(r##"{"session_id": "thr_tui", "turn_id": "turn-1", "text": "a"}"##),
        },
        WorkspaceStatusEventRecord {
            schema_version: 2,
            event: "preview_text".to_owned(),
            source: SessionActivitySource::Tui,
            workspace_cwd: "/tmp/workspace".to_owned(),
            occurred_at: "2026-03-19T00:00:00.010Z".to_owned(),
            payload: json(r##"{"session_id": "thr_tui", "turn_id": "turn-2", "text": "b"}"##),
        },
        WorkspaceStatusEventRecord {
            schema_version: 2,
            event: "preview_text".to_owned(),
            source: SessionActivitySource::Tui,
            workspace_cwd: "/tmp/workspace".to_owned(),
            occurred_at: "2026-03-19T00:00:00.020Z".to_owned(),
            payload: json(r##"{"session_id": "thr_other", "turn_id": "turn-2", "text": "c"}"##),
        },
    ];

    assert_eq!(preview_event_run_end(&events, 0), 1);
    assert_eq!(preview_event_run_end(&events, 1), 2);
}

#[test]
fn local_user_prompt_event_without_prompt_is_ignored() {
    let event = WorkspaceStatusEventRecord {
        schema_version: 2,
        event: "user_prompt_submitted".to_owned(),
        source: SessionActivitySource::Tui,
        workspace_cwd: "/tmp/workspace".to_owned(),
        occurred_at: "2026-03-19T00:00:00.000Z".to_owned(),
        payload: json(r##"{
            "session_id": "thr_cli"
        }"##),
    };
    assert!(local_mirror_entry_from_event(&event, Some("thr_cli")).is_none());
}

#[test]
fn turn_completed_does_not_fallback_to_input_messages_for_local_user_entry() {
    let event = WorkspaceStatusEventRecord {
        schema_version: 2,
        event: "turn_completed".to_owned(),
        source: SessionActivitySource::Tui,
        workspace_cwd: "/tmp/workspace".to_owned(),
        occurred_at: "2026-03-19T00:00:00.000Z".to_owned(),
        payload: json(r##"{
            "thread-id": "thr_cli",
            "input-messages": ["hello from cli"]
        }"##),
    };
    assert!(local_mirror_entry_from_event(&event, Some("thr_cli")).is_none());
}

#[test]
fn turn_completed_entry_carries_turn_id() {
    let event = WorkspaceStatusEventRecord {
        schema_version: 2,
        event: "turn_completed".to_owned(),
        source: SessionActivitySource::Tui,
        workspace_cwd: "/tmp/workspace".to_owned(),
        occurred_at: "2026-03-19T00:00:00.000Z".to_owned(),
        payload: json(r##"{
            "thread-id": "thr_cli",
            "turn-id": "turn-1",
            "last-assistant-message": "done"
        }"##),
    };
    let entry =
        local_mirror_entry_from_event(&event, Some("thr_cli")).unwrap();
    assert_eq!(entry.turn_id.as_deref(), Some("turn-1"));
}

fn tui_event(event: &str, payload: &str) -> WorkspaceStatusEventRecord {
    WorkspaceStatusEventRecord {
        schema_version: 2,
        event: event.to_owned(),
        source: SessionActivitySource::Tui,
        workspace_cwd: "/work".to_owned(),
        occurred_at: "2026-03-19T00:00:00.000Z".to_owned(),
        payload: json(payload),
    }
}

fn tui_claim(session_id: Option<&str>) -> LocalTuiSessionClaim {
    LocalTuiSessionClaim {
        schema_version: 2,
        workspace_cwd: "/work".to_owned(),
        thread_key: "thread-key".to_owned(),
        shell_pid: 42,
        session_id: session_id.map(str::to_owned),
        child_pid: None,
        child_pgid: None,
        child_command: None,
        started_at: "2026-03-19T00:00:00.000Z".to_owned(),
        updated_at: "2026-03-19T00:00:00.000Z".to_owned(),
    }
}

#[test]
fn claimed_sessions_are_mirrored() {
    let events = vec![
        tui_event(
            "user_prompt_submitted",
            r#"{"session_id":"thr_other","prompt":"not ours"}"#,
        ),
        tui_event(
            "user_prompt_submitted",
            r#"{"session_id":"thr_tui","turn_id":"turn-1","prompt":"hi"}"#,
        ),
        tui_event(
            "turn_completed",
            r#"{"thread-id":"thr_tui","turn-id":"turn-1","last-assistant-message":"done"}"#,
        ),
    ];
    let (mut run, mut step) = MirrorRun::begin(
        events,
        0,
        "/work".to_owned(),
        Some("thr_tui".to_owned()),
        Vec::new(),
        test_mirror_preview_state(),
    );
    let mut said = Vec::new();
    for _ in 0..20 {
        step = match step {
            MirrorStep::Append { entry } => {
                said.push(entry.text);
                run.advance(MirrorEvent::Inserted { inserted: true })
            }
            MirrorStep::ClaimEcho { .. } | MirrorStep::ClaimReply { .. } => {
                run.advance(MirrorEvent::Claimed { claimed: true })
            }
            MirrorStep::ClaimDraft { .. } => run.advance(MirrorEvent::Claimed { claimed: true }),
            MirrorStep::Finish { outcome } => {
                assert!(outcome.is_ok());
                assert_eq!(said, vec!["hi", "done"]);
                assert_eq!(run.next, 3);
                return;
            }
            _ => run.advance(MirrorEvent::Done),
        };
    }
    panic!("mirroring did not end");
}

#[test]
fn claimed_prompts_are_not_echoed_twice() {
    let events = vec![tui_event(
        "user_prompt_submitted",
        r#"{"session_id":"thr_tui","prompt":"hi"}"#,
    )];
    let (mut run, step) = MirrorRun::begin(
        events,
        0,
        "/work".to_owned(),
        Some("thr_tui".to_owned()),
        Vec::new(),
        test_mirror_preview_state(),
    );
    assert!(matches!(step, MirrorStep::Append { .. }));
    let step = run.advance(MirrorEvent::Inserted { inserted: true });
    assert!(matches!(step, MirrorStep::ClaimEcho { .. }));
    let step = run.advance(MirrorEvent::Claimed { claimed: false });
    assert!(matches!(step, MirrorStep::Finish { outcome: Ok(()) }));
}

#[test]
fn events_go_to_the_claiming_thread() {
    let threads = vec![MirrorThread {
        thread_key: "thread-key".to_owned(),
        archived: false,
        workspace_cwd: Some("/work".to_owned()),
        message_thread_id: Some(7),
    }];
    let quiet = WorkspaceAggregateStatus { live_tui_session_ids: Vec::new() };
    assert_eq!(
        plan_workspace_mirror(Some(&tui_claim(Some("thr_tui"))), &quiet, &threads, "/work"),
        WorkspacePlan::Mirror { owner: 0, message_thread_id: 7 }
    );
    assert_ne!(
        plan_workspace_mirror(None, &quiet, &threads, "/work"),
        WorkspacePlan::Mirror { owner: 0, message_thread_id: 7 }
    );
}

#[test]
fn other_live_sessions_are_a_conflict() {
    let live = |ids: &[&str]| WorkspaceAggregateStatus {
        live_tui_session_ids: ids.iter().map(|id| (*id).to_owned()).collect(),
    };
    let claim = tui_claim(Some("thr_tui"));
    assert!(!workspace_local_conflict(Some(&live(&["thr_tui"])), Some(&claim)));
    assert!(workspace_local_conflict(Some(&live(&["thr_tui", "thr_b"])), Some(&claim)));
}

#[test]
fn titles_are_applied_when_they_change() {
    let metadata = record(Some("Title"), false);
    let title = title_to_apply(&metadata, None, None).unwrap();
    assert_eq!(title, "Title");
    assert_eq!(title_to_apply(&metadata, None, Some("Title")), None);
}
