use threadbridge::execution_mode::{ExecutionMode, SessionExecutionSnapshot};
use threadbridge::repository::{
    RunningInputPolicy, SessionBinding, ThreadMetadata, ThreadScope, ThreadStatus,
    TranscriptMirrorDelivery, TranscriptMirrorEntry, TranscriptMirrorOrigin, TranscriptMirrorPhase,
    TranscriptMirrorRole,
};
use threadbridge::thread_state::{
    worker_snapshot, BackendThreadRunState, BusySearch, BusySource,
};
use threadbridge::working_sessions::{
    build_working_session_records, build_working_session_summaries, truncate_summary,
    WorkingSessionInput, WorkingSessionRecordKind,
};

fn metadata() -> ThreadMetadata {
    ThreadMetadata {
        archived_at: None,
        chat_id: 1,
        created_at: "2026-03-22T00:00:00.000Z".to_owned(),
        last_codex_turn_at: None,
        message_thread_id: Some(7),
        previous_message_thread_ids: Vec::new(),
        running_input_policy: RunningInputPolicy::default(),
        scope: ThreadScope::Thread,
        session_broken: false,
        session_broken_at: None,
        session_broken_reason: None,
        status: ThreadStatus::Active,
        title: Some("Workspace".to_owned()),
        updated_at: "2026-03-22T00:00:00.000Z".to_owned(),
        thread_key: "thread-1".to_owned(),
    }
}

fn binding() -> SessionBinding {
    SessionBinding::fresh(
        Some("/work".to_owned()),
        Some("thr_current".to_owned()),
        SessionExecutionSnapshot::from_mode(ExecutionMode::FullAuto),
    )
}

fn entry(
    timestamp: &str,
    session_id: &str,
    role: TranscriptMirrorRole,
    phase: Option<TranscriptMirrorPhase>,
    text: &str,
) -> TranscriptMirrorEntry {
    TranscriptMirrorEntry {
        timestamp: timestamp.to_owned(),
        session_id: session_id.to_owned(),
        turn_id: None,
        origin: if session_id == "thr_old" {
            TranscriptMirrorOrigin::Tui
        } else {
            TranscriptMirrorOrigin::Telegram
        },
        role,
        delivery: if phase.is_some() {
            TranscriptMirrorDelivery::Process
        } else {
            TranscriptMirrorDelivery::Final
        },
        phase,
        text: text.to_owned(),
    }
}

fn input(binding: SessionBinding, entries: Vec<TranscriptMirrorEntry>) -> WorkingSessionInput {
    WorkingSessionInput {
        metadata: metadata(),
        binding,
        entries,
        recent_sessions: Vec::new(),
        readings: Vec::new(),
        busy_snapshot: Ok(None),
    }
}

#[test]
fn working_session_views_group_entries_and_records_by_session() {
    let input = input(
        binding(),
        vec![
            entry(
                "2026-03-24T10:00:00.000Z",
                "thr_current",
                TranscriptMirrorRole::User,
                None,
                "hello",
            ),
            entry(
                "2026-03-24T10:00:01.000Z",
                "thr_current",
                TranscriptMirrorRole::Assistant,
                Some(TranscriptMirrorPhase::Plan),
                "Plan: inspect runtime",
            ),
            entry(
                "2026-03-24T10:00:02.000Z",
                "thr_current",
                TranscriptMirrorRole::Assistant,
                None,
                "done",
            ),
            entry(
                "2026-03-24T09:00:00.000Z",
                "thr_old",
                TranscriptMirrorRole::User,
                None,
                "older",
            ),
        ],
    );
    let summaries = build_working_session_summaries(&input).unwrap();
    assert_eq!(summaries.len(), 2);
    assert_eq!(summaries[0].session_id, "thr_current");
    assert_eq!(summaries[0].tool_use_count, 0);
    assert!(summaries[0].has_final_reply);
    assert_eq!(summaries[0].origins_seen, vec![TranscriptMirrorOrigin::Telegram]);
    assert_eq!(summaries[0].record_count, 3);

    let records = build_working_session_records(&input, "thr_current").unwrap().unwrap();
    assert_eq!(
        records.iter().map(|record| &record.kind).collect::<Vec<_>>(),
        vec![
            &WorkingSessionRecordKind::UserPrompt,
            &WorkingSessionRecordKind::ProcessPlan,
            &WorkingSessionRecordKind::AssistantFinal,
        ]
    );
    assert!(build_working_session_records(&input, "thr_missing").unwrap().is_none());
}

#[test]
fn working_session_views_surface_running_and_broken_current_session_error() {
    let broken = binding().broken(
        "session continuity lost".to_owned(),
        "2026-03-24T10:00:03.000Z",
    );
    let mut input = input(
        broken,
        vec![entry(
            "2026-03-24T10:00:00.000Z",
            "thr_current",
            TranscriptMirrorRole::User,
            None,
            "hello",
        )],
    );
    input.busy_snapshot = Ok(worker_snapshot(
        "/work",
        "thr_current",
        BackendThreadRunState {
            is_busy: true,
            active_turn_id: Some("turn-1".to_owned()),
            interruptible: true,
            phase: None,
            last_transition_at: None,
        },
        "2026-03-24T10:00:00.500Z",
    ));
    let summaries = build_working_session_summaries(&input).unwrap();
    assert_eq!(summaries[0].session_id, "thr_current");
    assert_eq!(summaries[0].run_status, "running");
    assert_eq!(summaries[0].run_phase, "turn_running");
    assert_eq!(summaries[0].last_error.as_deref(), Some("session continuity lost"));
    assert_eq!(summaries[0].record_count, 2);

    let records = build_working_session_records(&input, "thr_current").unwrap().unwrap();
    assert!(records.iter().any(|record| {
        record.kind == WorkingSessionRecordKind::Error && record.source_ref == "session_binding"
    }));
    assert!(records
        .iter()
        .any(|record| record.kind == WorkingSessionRecordKind::UserPrompt));
}

#[test]
fn working_session_summaries_fall_back_to_worker_busy_state() {
    let mut search = BusySearch::begin(Some(&binding())).unwrap();
    let source = search.source(Some(Some("ws://127.0.0.1:4100".to_owned())), None, None);
    assert!(matches!(source, Ok(BusySource::Worker { url }) if url == "ws://127.0.0.1:4100"));
    assert_eq!(search.next_session(), Some("thr_current"));
    let busy = search
        .record(
            Some(BackendThreadRunState {
                is_busy: true,
                active_turn_id: Some("turn_worker".to_owned()),
                interruptible: true,
                phase: Some("turn_running".to_owned()),
                last_transition_at: None,
            }),
            "2026-03-24T10:00:00.500Z",
        )
        .unwrap();
    let mut input = input(binding(), Vec::new());
    input.busy_snapshot = Ok(busy);
    let summaries = build_working_session_summaries(&input).unwrap();
    assert_eq!(summaries.len(), 1);
    assert_eq!(summaries[0].session_id, "thr_current");
    assert_eq!(summaries[0].run_status, "running");
    assert_eq!(summaries[0].run_phase, "turn_running");
}

#[test]
fn working_sessions_need_a_workspace() {
    let mut unbound = binding();
    unbound.workspace_cwd = None;
    let error = build_working_session_summaries(&input(unbound, Vec::new())).unwrap_err();
    assert!(!error.to_text().is_empty());
}

#[test]
fn summaries_are_short() {
    assert_eq!(truncate_summary("  short "), "short");
    let cut = truncate_summary(&"y".repeat(200));
    assert_eq!(cut, format!("{}...", "y".repeat(117)));
}
