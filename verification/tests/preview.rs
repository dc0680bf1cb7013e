use threadbridge::repository::{
    TranscriptMirrorDelivery, TranscriptMirrorEntry, TranscriptMirrorOrigin, TranscriptMirrorPhase,
    TranscriptMirrorRole,
};
use threadbridge::telegram_runtime::preview::{CodexThreadEvent, PreviewRenderer};

fn json(source: &str) -> serde_json::Value {
    serde_json::from_str(source).unwrap()
}

#[test]
fn preview_renderer_applies_heartbeat_to_draft_text() {
    let mut renderer = PreviewRenderer::new(3500, 800);
    renderer.consume(&CodexThreadEvent::TurnStarted { turn_id: None });
    assert_eq!(renderer.get_render_text(), "○ Reading context...");

    renderer.consume(&CodexThreadEvent::ItemUpdated {
        item: json(r##"{
            "type": "agent_message",
            "text": "First draft paragraph"
        }"##),
    });
    assert_eq!(renderer.get_render_text(), "○ First draft paragraph");

    renderer.heartbeat();
    assert_eq!(renderer.get_render_text(), "● First draft paragraph");
}

#[test]
fn preview_renderer_heartbeat_rotates_prefix_marker() {
    let mut renderer = PreviewRenderer::new(3500, 800);
    renderer.consume(&CodexThreadEvent::TurnStarted { turn_id: None });
    assert_eq!(renderer.get_render_text(), "○ Reading context...");

    renderer.heartbeat();
    assert_eq!(renderer.get_render_text(), "● Reading context...");

    renderer.heartbeat();
    assert_eq!(renderer.get_render_text(), "○ Reading context...");
}

#[test]
fn preview_renderer_uses_process_entry_summary() {
    let mut renderer = PreviewRenderer::new(3500, 800);
    renderer.consume(&CodexThreadEvent::TurnStarted { turn_id: None });
    let changed = renderer.consume_process_entry(&TranscriptMirrorEntry {
        timestamp: "2026-03-22T00:00:00.000Z".to_owned(),
        session_id: "session-1".to_owned(),
        turn_id: None,
        origin: TranscriptMirrorOrigin::Telegram,
        role: TranscriptMirrorRole::Assistant,
        delivery: TranscriptMirrorDelivery::Process,
        phase: Some(TranscriptMirrorPhase::Tool),
        text: "Command: cargo test".to_owned(),
    });
    assert!(changed);
    assert_eq!(renderer.get_render_text(), "○ Command: cargo test");
}

#[test]
fn preview_renderer_reset_allows_same_process_summary_next_turn() {
    let mut renderer = PreviewRenderer::new(3500, 800);
    assert!(renderer.consume_process_entry(&TranscriptMirrorEntry {
        timestamp: "2026-03-22T00:00:00.000Z".to_owned(),
        session_id: "session-1".to_owned(),
        turn_id: None,
        origin: TranscriptMirrorOrigin::Telegram,
        role: TranscriptMirrorRole::Assistant,
        delivery: TranscriptMirrorDelivery::Process,
        phase: Some(TranscriptMirrorPhase::Tool),
        text: "Command: cargo test".to_owned(),
    }));
    renderer.reset_for_new_turn();
    assert!(renderer.consume_process_entry(&TranscriptMirrorEntry {
        timestamp: "2026-03-22T00:00:01.000Z".to_owned(),
        session_id: "session-1".to_owned(),
        turn_id: None,
        origin: TranscriptMirrorOrigin::Telegram,
        role: TranscriptMirrorRole::Assistant,
        delivery: TranscriptMirrorDelivery::Process,
        phase: Some(TranscriptMirrorPhase::Tool),
        text: "Command: cargo test".to_owned(),
    }));
    assert_eq!(renderer.get_render_text(), "○ Command: cargo test");
}

#[test]
fn preview_renderer_uses_preview_text_without_touching_final_response() {
    let mut renderer = PreviewRenderer::new(3500, 800);
    assert!(
        renderer
            .consume_preview_text("我先直接查看這個 repo 最近 2 個 commit，整理出摘要給你。")
    );
    assert_eq!(
        renderer.get_render_text(),
        "○ 我先直接查看這個 repo 最近 2 個 commit，整理出摘要給你。"
    );
    assert_eq!(renderer.get_final_response(), "");
}

#[test]
fn preview_renderer_complete_replaces_draft_with_last_marker() {
    let mut renderer = PreviewRenderer::new(3500, 800);
    renderer.consume_preview_text("我先查一下这个仓库最近 2 个 commit。");
    assert!(renderer.complete_with_final_text("最近 2 個 commit 都在修 redraw。"));
    assert_eq!(
        renderer.get_render_text(),
        "○ 最近 2 個 commit 都在修 redraw。"
    );
    assert_eq!(
        renderer.get_final_response(),
        "最近 2 個 commit 都在修 redraw。"
    );
}
