use threadbridge::telegram_runtime::title_sync::is_telegram_topic_management_unavailable_error_text;

#[test]
fn topic_management_unavailable_matches_threaded_mode_create_forbidden() {
    assert!(is_telegram_topic_management_unavailable_error_text(
        "A Telegram's error: Unknown error: \"Bad Request: BOT_FORUM_CREATE_FORBIDDEN\""
    ));
}

#[test]
fn topic_management_unavailable_matches_stale_topic() {
    assert!(is_telegram_topic_management_unavailable_error_text(
        "A Telegram's error: Unknown error: \"Bad Request: message thread not found\""
    ));
}

#[test]
fn topic_management_unavailable_rejects_unrelated_error() {
    assert!(!is_telegram_topic_management_unavailable_error_text(
        "A Telegram's error: Unknown error: \"Too Many Requests\""
    ));
}
