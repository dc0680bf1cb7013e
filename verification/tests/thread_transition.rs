use threadbridge::thread_transition::{BindingMutation, ThreadTransition, apply_transition};
use threadbridge::execution_mode::{ExecutionMode, SessionExecutionSnapshot};
use threadbridge::repository::{
    RunningInputPolicy, SessionBinding, ThreadMetadata, ThreadScope, ThreadStatus,
};

fn metadata() -> ThreadMetadata {
    ThreadMetadata {
        archived_at: None,
        chat_id: 1,
        created_at: "2026-03-24T00:00:00.000Z".to_owned(),
        last_codex_turn_at: None,
        message_thread_id: Some(7),
        previous_message_thread_ids: Vec::new(),
        running_input_policy: RunningInputPolicy::default(),
        scope: ThreadScope::Thread,
        session_broken: false,
        session_broken_at: None,
        session_broken_reason: None,
        status: ThreadStatus::Active,
        title: Some("Title".to_owned()),
        updated_at: "2026-03-24T00:00:00.000Z".to_owned(),
        thread_key: "thread-1".to_owned(),
    }
}

fn binding() -> SessionBinding {
    SessionBinding::fresh(
        Some("/tmp/workspace".to_owned()),
        Some("thr_bot".to_owned()),
        SessionExecutionSnapshot::from_mode(ExecutionMode::FullAuto),
    )
}

#[test]
fn bind_workspace_clears_broken_and_records_recent_session() {
    let result = apply_transition(
        &ThreadMetadata {
            session_broken: true,
            session_broken_reason: Some("old".to_owned()),
            ..metadata()
        },
        None,
        ThreadTransition::BindWorkspace {
            workspace_cwd: "/tmp/workspace".to_owned(),
            codex_thread_id: "thr_new".to_owned(),
            execution: SessionExecutionSnapshot::from_mode(ExecutionMode::FullAuto),
        },
        "2026-03-24T01:00:00.000Z",
    )
    .unwrap();

    assert!(!result.metadata.session_broken);
    match result.binding {
        BindingMutation::Write(binding) => {
            assert_eq!(binding.current_codex_thread_id.as_deref(), Some("thr_new"));
        }
        BindingMutation::Unchanged => panic!("expected binding write"),
    }
    assert_eq!(
        result
            .recent_session
            .as_ref()
            .map(|entry| entry.session_id.as_str()),
        Some("thr_new")
    );
}

#[test]
fn select_session_clears_adoption_state() {
    let mut existing = binding();
    existing.tui_active_codex_thread_id = Some("thr_tui".to_owned());
    existing.tui_session_adoption_pending = true;
    existing.tui_session_adoption_prompt_message_id = Some(42);

    let result = apply_transition(
        &metadata(),
        Some(existing),
        ThreadTransition::SelectSession {
            session_id: "thr_cli".to_owned(),
        },
        "2026-03-24T01:00:00.000Z",
    )
    .unwrap();

    match result.binding {
        BindingMutation::Write(binding) => {
            assert_eq!(binding.current_codex_thread_id.as_deref(), Some("thr_cli"));
            assert_eq!(binding.tui_active_codex_thread_id, None);
            assert!(!binding.tui_session_adoption_pending);
            assert_eq!(binding.tui_session_adoption_prompt_message_id, None);
        }
        BindingMutation::Unchanged => panic!("expected binding write"),
    }
}

#[test]
fn mark_broken_requires_workspace_binding() {
    let error = apply_transition(
        &metadata(),
        Some(SessionBinding::fresh(
            None,
            Some("thr_bot".to_owned()),
            SessionExecutionSnapshot::from_mode(ExecutionMode::FullAuto),
        )),
        ThreadTransition::MarkBroken {
            reason: "lost".to_owned(),
        },
        "2026-03-24T01:00:00.000Z",
    )
    .unwrap_err();

    assert!(error.to_text().contains("workspace is missing"));
}

#[test]
fn restore_keeps_broken_state_and_updates_topic() {
    let result = apply_transition(
        &ThreadMetadata {
            archived_at: Some("2026-03-24T00:30:00.000Z".to_owned()),
            session_broken: true,
            session_broken_reason: Some("lost".to_owned()),
            status: ThreadStatus::Archived,
            ..metadata()
        },
        Some(binding()),
        ThreadTransition::Restore {
            message_thread_id: 9,
            title: "Restored".to_owned(),
        },
        "2026-03-24T01:00:00.000Z",
    )
    .unwrap();

    assert!(matches!(result.metadata.status, ThreadStatus::Active));
    assert!(result.metadata.session_broken);
    assert_eq!(result.metadata.message_thread_id, Some(9));
    assert!(matches!(result.binding, BindingMutation::Unchanged));
}
