use teloxide::types::{Message, MessageKind};
use threadbridge::execution_mode::{ExecutionMode, SessionExecutionSnapshot};
use threadbridge::repository::SessionBinding;
use threadbridge::runtime_control::current_bound_session_id;
use threadbridge::telegram_runtime::commands::{command_list, Command};
use threadbridge::telegram_runtime::{
    format_role_text, format_system_text,
    session_binding_hint_for_state, topic_rename_service_message_thread_id,
    usable_bound_session_id, TelegramSystemIntent, TelegramTextRole,
};
use threadbridge::thread_state::{
    BindingStatus, LifecycleStatus, ResolvedThreadState, RunStatus,
};
use threadbridge::workspace_status::WorkspaceStatusPhase;

fn number_or_null(number: Option<i32>) -> String {
    match number {
        Some(number) => number.to_string(),
        None => "null".to_owned(),
    }
}

fn renamed_thread(msg: &Message) -> Option<i32> {
    topic_rename_service_message_thread_id(
        matches!(msg.kind, MessageKind::ForumTopicEdited(_)),
        msg.thread_id.map(|thread_id| thread_id.0 .0),
    )
}

fn forum_topic_edited_message(thread_id: Option<i32>) -> Message {
    serde_json::from_str(
        &r##"{
        "message_id": 42,
        "message_thread_id": THREAD,
        "date": 1742342400,
        "chat": {
            "id": -1001234567890,
            "title": "threadBridge",
            "type": "supergroup",
            "is_forum": true
        },
        "forum_topic_edited": {
            "name": "AGENTS.md Ready Check"
        }
    }"##
            .replace("THREAD", &number_or_null(thread_id)),
    )
    .unwrap()
}

fn text_message(thread_id: Option<i32>) -> Message {
    serde_json::from_str(
        &r##"{
        "message_id": 43,
        "message_thread_id": THREAD,
        "date": 1742342401,
        "chat": {
            "id": -1001234567890,
            "title": "threadBridge",
            "type": "supergroup",
            "is_forum": true
        },
        "from": {
            "id": 7,
            "is_bot": false,
            "first_name": "Ronnie"
        },
        "text": "hello"
    }"##
            .replace("THREAD", &number_or_null(thread_id)),
    )
    .unwrap()
}

#[test]
fn command_list_registers_workspace_first_commands() {
    let commands = command_list()
        .into_iter()
        .map(|command| command.command)
        .collect::<Vec<_>>();

    assert!(commands.iter().any(|command| command == "/new_session"));
    assert!(commands.iter().any(|command| command == "/add_workspace"));
    assert!(commands.iter().any(|command| command == "/workspace_info"));
    assert!(
        commands
            .iter()
            .any(|command| command == "/archive_workspace")
    );
    assert!(
        commands
            .iter()
            .any(|command| command == "/restore_workspace")
    );
    assert!(
        commands
            .iter()
            .any(|command| command == "/rename_workspace")
    );
    assert!(commands.iter().any(|command| command == "/repair_session"));
    assert!(
        !commands
            .iter()
            .any(|command| command == "/reset_codex_session")
    );
}

#[test]
fn role_formatter_uses_symbol_headers() {
    assert_eq!(format_role_text(TelegramTextRole::User, "hello"), "□ hello");
    assert_eq!(
        format_role_text(TelegramTextRole::Assistant, "hello"),
        "■ hello"
    );
}

#[test]
fn system_formatter_uses_intent_specific_headers() {
    assert_eq!(
        format_system_text(TelegramSystemIntent::Info, "ready"),
        "Info: ready"
    );
    assert_eq!(
        format_system_text(TelegramSystemIntent::Question, "continue?"),
        "Question: continue?"
    );
    assert_eq!(
        format_system_text(TelegramSystemIntent::Warning, "failed"),
        "Warning: failed"
    );
}

#[test]
fn binding_hint_prefers_resolved_broken_state() {
    let state = ResolvedThreadState {
        lifecycle_status: LifecycleStatus::Active,
        binding_status: BindingStatus::Broken,
        run_status: RunStatus::Idle,
        run_phase: WorkspaceStatusPhase::Idle,
    };
    let hint = session_binding_hint_for_state(state, None);
    assert!(hint.contains("/repair_session"));
    assert!(hint.contains("/new_session"));
}

#[test]
fn usable_bound_session_id_requires_healthy_binding_status() {
    let binding = SessionBinding::fresh(
        Some("/tmp/workspace".to_owned()),
        Some("thr_current".to_owned()),
        SessionExecutionSnapshot::from_mode(
            ExecutionMode::FullAuto,
        ),
    );
    let healthy = ResolvedThreadState {
        lifecycle_status: LifecycleStatus::Active,
        binding_status: BindingStatus::Healthy,
        run_status: RunStatus::Idle,
        run_phase: WorkspaceStatusPhase::Idle,
    };
    let broken = ResolvedThreadState {
        lifecycle_status: LifecycleStatus::Active,
        binding_status: BindingStatus::Broken,
        run_status: RunStatus::Idle,
        run_phase: WorkspaceStatusPhase::Idle,
    };

    assert_eq!(
        usable_bound_session_id(healthy, Some(&binding)),
        Some("thr_current")
    );
    assert_eq!(usable_bound_session_id(broken, Some(&binding)), None);
    assert_eq!(
        current_bound_session_id(Some(&binding)),
        Some("thr_current")
    );
}

#[test]
fn command_parser_uses_workspace_first_names() {
    assert!(matches!(
        Command::parse("/new_session", ""),
        Ok(Command::NewSession)
    ));
    assert!(matches!(
        Command::parse("/add_workspace", ""),
        Ok(Command::AddWorkspace)
    ));
    assert!(matches!(
        Command::parse("/workspace_info", ""),
        Ok(Command::WorkspaceInfo)
    ));
    assert!(matches!(
        Command::parse("/archive_workspace", ""),
        Ok(Command::ArchiveWorkspace)
    ));
    assert!(matches!(
        Command::parse("/restore_workspace", ""),
        Ok(Command::RestoreWorkspace)
    ));
    assert!(matches!(
        Command::parse("/rename_workspace", ""),
        Ok(Command::RenameWorkspace)
    ));
    assert!(matches!(
        Command::parse("/repair_session", ""),
        Ok(Command::RepairSession)
    ));
    assert!(Command::parse("/new", "").is_err());
    assert!(Command::parse("/generate_title", "").is_err());
    assert!(Command::parse("/reconnect_codex", "").is_err());
    assert!(Command::parse("/thread_info", "").is_err());
    assert!(Command::parse("/archive_thread", "").is_err());
    assert!(Command::parse("/restore_thread", "").is_err());
    assert!(Command::parse("/new_thread", "").is_err());
    assert!(Command::parse("/bind_workspace", "").is_err());
    assert!(Command::parse("/reset_codex_session", "").is_err());
}

#[test]
fn topic_rename_service_message_extracts_thread_id() {
    let msg = forum_topic_edited_message(Some(321));
    assert_eq!(renamed_thread(&msg), Some(321));
}

#[test]
fn topic_rename_service_message_ignores_regular_text() {
    let msg = text_message(Some(321));
    assert_eq!(renamed_thread(&msg), None);
}

#[test]
fn topic_rename_service_message_ignores_missing_thread_id() {
    let msg = forum_topic_edited_message(None);
    assert_eq!(renamed_thread(&msg), None);
}

#[test]
fn topic_rename_service_message_does_not_require_authorized_sender() {
    let msg = forum_topic_edited_message(Some(321));
    assert!(msg.from.is_none());
    assert_eq!(renamed_thread(&msg), Some(321));
}
