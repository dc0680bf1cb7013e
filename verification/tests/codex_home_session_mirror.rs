use threadbridge::repository::TranscriptMirrorRole;
use threadbridge::telegram_runtime::codex_home_session_mirror::{
    advance_candidate, advance_home_sync, begin_candidate, begin_home_sync, choose_session_log,
    codex_home_dir,
    codex_home_mirror_enabled, echo_text, is_session_log_name, log_from,
    parse_codex_home_log_slice, parse_codex_home_log_slice_at, session_index_contains,
    session_meta_cwd, timestamp_is_after, CandidateEvent, CandidateStep, CodexHomeMirrorCandidate,
    CodexHomeMirrorCursor, CodexHomeParseResult, CodexHomeSessionLog, HomeSyncError, HomeSyncEvent,
    HomeSyncStep,
};

fn json(source: &str) -> serde_json::Value {
    serde_json::from_str(source).unwrap()
}

fn line(value: serde_json::Value) -> String {
    format!("{}\n", serde_json::to_string(&value).unwrap())
}

#[test]
fn parser_uses_turn_lifecycle_and_last_assistant_only() {
    let slice = [
        line(json(r##"{"timestamp":"2026-05-08T00:00:00.000Z","type":"event_msg","payload":{"type":"task_started","turn_id":"turn-1"}}"##)),
        line(json(r##"{"timestamp":"2026-05-08T00:00:00.001Z","type":"turn_context","payload":{"turn_id":"turn-1"}}"##)),
        line(json(r##"{"timestamp":"2026-05-08T00:00:00.002Z","type":"response_item","payload":{"type":"message","role":"user","content":[{"type":"input_text","text":"real prompt"}]}}"##)),
        line(json(r##"{"timestamp":"2026-05-08T00:00:00.003Z","type":"response_item","payload":{"type":"message","role":"assistant","content":[{"type":"output_text","text":"first commentary"}]}}"##)),
        line(json(r##"{"timestamp":"2026-05-08T00:00:00.004Z","type":"response_item","payload":{"type":"message","role":"assistant","content":[{"type":"output_text","text":"final answer"}]}}"##)),
        line(json(r##"{"timestamp":"2026-05-08T00:00:00.005Z","type":"event_msg","payload":{"type":"task_complete","id":"turn-1"}}"##)),
    ]
    .concat();
    let parsed = parse_codex_home_log_slice(&slice, 0, 0);
    assert_eq!(
        parsed.candidates,
        vec![
            CodexHomeMirrorCandidate {
                line_no: 3,
                offset_end: parsed.candidates[0].offset_end,
                timestamp: "2026-05-08T00:00:00.002Z".to_owned(),
                turn_id: "turn-1".to_owned(),
                role: TranscriptMirrorRole::User,
                text: "real prompt".to_owned(),
            },
            CodexHomeMirrorCandidate {
                line_no: 5,
                offset_end: parsed.candidates[1].offset_end,
                timestamp: "2026-05-08T00:00:00.004Z".to_owned(),
                turn_id: "turn-1".to_owned(),
                role: TranscriptMirrorRole::Assistant,
                text: "final answer".to_owned(),
            },
        ]
    );
}

#[test]
fn parser_skips_bootstrap_user_messages() {
    let slice = [
        line(json(r##"{"timestamp":"2026-05-08T00:00:00.000Z","type":"event_msg","payload":{"type":"task_started","id":"turn-1"}}"##)),
        line(json(r##"{"timestamp":"2026-05-08T00:00:00.001Z","type":"response_item","payload":{"type":"message","role":"user","content":[{"type":"input_text","text":"# AGENTS.md instructions for /tmp\n<INSTRUCTIONS>"}]}}"##)),
        line(json(r##"{"timestamp":"2026-05-08T00:00:00.002Z","type":"response_item","payload":{"type":"message","role":"assistant","content":[{"type":"output_text","text":"READY"}]}}"##)),
        line(json(r##"{"timestamp":"2026-05-08T00:00:00.003Z","type":"event_msg","payload":{"type":"task_complete","id":"turn-1"}}"##)),
    ]
    .concat();
    let parsed = parse_codex_home_log_slice(&slice, 0, 0);
    assert!(parsed.candidates.is_empty());
}

#[test]
fn parser_keeps_identical_text_in_different_turns_and_counts_malformed_lines() {
    let slice = [
        "{not-json}\n".to_owned(),
        line(json(r##"{"timestamp":"2026-05-08T00:00:00.000Z","type":"event_msg","payload":{"type":"task_started","id":"turn-1"}}"##)),
        line(json(r##"{"timestamp":"2026-05-08T00:00:00.001Z","type":"response_item","payload":{"type":"message","role":"user","content":[{"type":"input_text","text":"same text"}]}}"##)),
        line(json(r##"{"timestamp":"2026-05-08T00:00:00.002Z","type":"event_msg","payload":{"type":"task_complete","id":"turn-1"}}"##)),
        line(json(r##"{"timestamp":"2026-05-08T00:00:00.003Z","type":"event_msg","payload":{"type":"task_started","id":"turn-2"}}"##)),
        line(json(r##"{"timestamp":"2026-05-08T00:00:00.004Z","type":"response_item","payload":{"type":"message","role":"user","content":[{"type":"input_text","text":"same text"}]}}"##)),
        line(json(r##"{"timestamp":"2026-05-08T00:00:00.005Z","type":"event_msg","payload":{"type":"task_complete","id":"turn-2"}}"##)),
    ]
    .concat();
    let parsed = parse_codex_home_log_slice(&slice, 0, 0);
    assert_eq!(parsed.malformed_lines, 1);
    assert_eq!(parsed.candidates.len(), 2);
    assert_eq!(parsed.candidates[0].turn_id, "turn-1");
    assert_eq!(parsed.candidates[1].turn_id, "turn-2");
    assert_eq!(parsed.candidates[0].text, parsed.candidates[1].text);
}

#[test]
fn timestamp_comparison_uses_rfc3339_order() {
    assert!(timestamp_is_after(
        "2026-05-08T07:04:06.906Z",
        "2026-05-08T05:34:05.367Z"
    ));
    assert!(!timestamp_is_after(
        "2026-05-08T05:34:05.367Z",
        "2026-05-08T07:04:06.906Z"
    ));
}

fn candidate(role: TranscriptMirrorRole, timestamp: &str, text: &str) -> CodexHomeMirrorCandidate {
    CodexHomeMirrorCandidate {
        line_no: 1,
        offset_end: 10,
        timestamp: timestamp.to_owned(),
        turn_id: "turn-1".to_owned(),
        role,
        text: text.to_owned(),
    }
}

fn session_log(len: u64) -> CodexHomeSessionLog {
    CodexHomeSessionLog {
        path: "/home/log.jsonl".to_owned(),
        len,
        cwd: "/work".to_owned(),
        source: None,
        originator: None,
    }
}

#[test]
fn locate_session_log_falls_back_when_index_misses() {
    let session_id = "019dff0f-ccf1-7852-924d-bb8a1b986ee9";
    assert!(!session_index_contains("", session_id));
    assert!(is_session_log_name(
        &format!("rollout-2026-05-07T04-51-58-{session_id}.jsonl"),
        session_id
    ));
    let log = line(json(&format!(
        "{{\"type\":\"session_meta\",\"payload\":{{\"id\":\"{session_id}\",\"cwd\":\"/tmp/workspace\"}}}}"
    )));
    assert_eq!(session_meta_cwd(&log).as_deref(), Some("/tmp/workspace"));
}

#[test]
fn messages_without_a_time_are_dated_now() {
    let slice = [
        line(json(r#"{"type":"event_msg","payload":{"type":"task_started","id":"turn-1"}}"#)),
        line(json(r#"{"type":"response_item","payload":{"type":"message","role":"user","content":[{"type":"input_text","text":"hi"}]}}"#)),
        line(json(r#"{"type":"event_msg","payload":{"type":"task_complete","id":"turn-1"}}"#)),
    ]
    .concat();
    let parsed = parse_codex_home_log_slice_at(&slice, 10, 100, "2026-05-08T00:00:00.000Z");
    assert_eq!(parsed.candidates[0].timestamp, "2026-05-08T00:00:00.000Z");
    assert_eq!(parsed.candidates[0].line_no, 12);
    assert_eq!(parsed.last_line, 13);
    let parsed = parse_codex_home_log_slice(&slice, 0, 0);
    assert!(parsed.candidates[0].timestamp.ends_with('Z'));
}

#[test]
fn logs_are_read_on_from_an_offset() {
    assert_eq!(log_from("abc\ndef\n", 4).as_deref(), Some("def\n"));
    assert_eq!(log_from("說a", 1), None);
    assert_eq!(log_from("說a", 3).as_deref(), Some("a"));
}

#[test]
fn candidates_are_shown_once() {
    let (stage, step) = begin_candidate(TranscriptMirrorRole::User);
    assert!(matches!(step, CandidateStep::Claim { .. }));
    let (_, step) = advance_candidate(stage, CandidateEvent::Claimed { claimed: false });
    assert!(matches!(step, CandidateStep::Finish { outcome: Ok(()) }));
    let (stage, _) = begin_candidate(TranscriptMirrorRole::User);
    let (stage, step) = advance_candidate(stage, CandidateEvent::Claimed { claimed: true });
    assert!(matches!(step, CandidateStep::Append));
    let (_, step) = advance_candidate(stage, CandidateEvent::Inserted { inserted: true });
    assert!(matches!(step, CandidateStep::SendEcho));
    let (stage, _) = begin_candidate(TranscriptMirrorRole::Assistant);
    let (stage, _) = advance_candidate(stage, CandidateEvent::Claimed { claimed: true });
    let (stage, step) = advance_candidate(stage, CandidateEvent::Inserted { inserted: false });
    assert!(matches!(step, CandidateStep::CommitSkip));
    let (_, step) = advance_candidate(stage, CandidateEvent::Done);
    assert!(matches!(step, CandidateStep::Finish { outcome: Ok(()) }));
    assert!(echo_text(&candidate(TranscriptMirrorRole::User, "t", "hi")).ends_with("hi"));
}

#[test]
fn old_messages_are_not_replayed() {
    let (stage, _) = begin_home_sync();
    let (stage, step) = advance_home_sync(
        stage,
        HomeSyncEvent::Located { log: session_log(100), same_workspace: true },
    );
    assert!(matches!(step, HomeSyncStep::ReadCursor));
    let (stage, step) = advance_home_sync(stage, HomeSyncEvent::Cursor(None));
    assert!(matches!(step, HomeSyncStep::ReadAll));
    let result = CodexHomeParseResult {
        candidates: vec![
            candidate(TranscriptMirrorRole::User, "2026-05-08T00:00:01.000Z", "old"),
            candidate(TranscriptMirrorRole::User, "2026-05-08T00:00:03.000Z", "new"),
        ],
        last_line: 2,
        last_turn_id: None,
        malformed_lines: 0,
    };
    let (stage, step) = advance_home_sync(stage, HomeSyncEvent::Parsed(result));
    assert!(matches!(step, HomeSyncStep::ReadWatermark));
    let (stage, step) = advance_home_sync(
        stage,
        HomeSyncEvent::Watermark(Some("2026-05-08T00:00:02.000Z".to_owned())),
    );
    assert!(matches!(step, HomeSyncStep::Mirror { index: 1 }));
    let (stage, step) = advance_home_sync(stage, HomeSyncEvent::Done);
    assert!(matches!(step, HomeSyncStep::WriteCursor { .. }));
    let (_, step) = advance_home_sync(stage, HomeSyncEvent::Done);
    assert!(matches!(step, HomeSyncStep::Finish { outcome: Ok(()) }));
}

#[test]
fn logs_of_other_workspaces_are_refused() {
    let (stage, _) = begin_home_sync();
    let (_, step) = advance_home_sync(
        stage,
        HomeSyncEvent::Located { log: session_log(1), same_workspace: false },
    );
    let HomeSyncStep::Finish { outcome: Err(error) } = step else {
        panic!("expected an error");
    };
    assert!(matches!(&error, HomeSyncError::WrongWorkspace { log_cwd } if log_cwd == "/work"));
    assert!(error.to_text("thr_a", "/other").contains("/other"));
}

#[test]
fn shrunk_logs_are_read_on_from_their_end() {
    let (stage, _) = begin_home_sync();
    let (stage, _) = advance_home_sync(
        stage,
        HomeSyncEvent::Located { log: session_log(5), same_workspace: true },
    );
    let cursor = CodexHomeMirrorCursor {
        thread_key: "key".to_owned(),
        session_id: "thr_a".to_owned(),
        log_path: "/home/log.jsonl".to_owned(),
        last_offset: 50,
        last_line: 3,
        last_turn_id: None,
        updated_at: "then".to_owned(),
        last_error: None,
    };
    let (_, step) = advance_home_sync(stage, HomeSyncEvent::Cursor(Some(cursor)));
    assert!(matches!(step, HomeSyncStep::WriteShrunk { len: 5, .. }));
}

#[test]
fn home_is_found_in_the_environment() {
    assert_eq!(codex_home_dir(Some("/codex"), Some("/home/me")), "/codex");
    assert_eq!(codex_home_dir(None, Some("/home/me")), "/home/me/.codex");
    assert!(codex_home_mirror_enabled(None));
    assert!(!codex_home_mirror_enabled(Some("0")));
}

#[test]
fn sessions_at_work_come_before_archived_ones() {
    let files = |names: &[&str]| names.iter().map(|name| (*name).to_owned()).collect::<Vec<_>>();
    let working = files(&[
        "/h/sessions/2026/05/rollout-b-thr_a.jsonl",
        "/h/sessions/2026/04/rollout-z-thr_a.jsonl",
        "/h/sessions/2026/01/rollout-a-thr_b.jsonl",
        "/h/sessions/2026/01/notes-thr_a.jsonl",
    ]);
    let archived = files(&["/h/archived_sessions/rollout-c-thr_c.jsonl"]);
    assert_eq!(
        choose_session_log(&working, &archived, "thr_a").as_deref(),
        Some("/h/sessions/2026/04/rollout-z-thr_a.jsonl")
    );
    assert_eq!(
        choose_session_log(&working, &archived, "thr_c").as_deref(),
        Some("/h/archived_sessions/rollout-c-thr_c.jsonl")
    );
    assert_eq!(choose_session_log(&working, &archived, "thr_d"), None);
}
