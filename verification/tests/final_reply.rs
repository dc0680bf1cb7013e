use threadbridge::telegram_runtime::final_reply::{
    first_preview_snippet, plan_final_assistant_reply, render_markdown_to_telegram_html,
    render_role_markdown_to_telegram_html, TelegramReplyPlan, OVERFLOW_NOTICE,
};
use threadbridge::telegram_runtime::TelegramTextRole;

#[test]
fn renders_supported_markdown_to_html() {
    let plan = plan_final_assistant_reply(
        "# Heading\n\nUse `cargo test` in **this** repo.\n\n- one\n- two",
        4096,
    );
    let TelegramReplyPlan::InlineHtml { text } = plan else {
        panic!("expected inline html");
    };

    assert!(text.contains("<b>Heading</b>"));
    assert!(text.contains("<code>cargo test</code>"));
    assert!(text.contains("<b>this</b>"));
    assert!(text.contains("- one"));
    assert!(text.contains("- two"));
}

#[test]
fn assistant_html_render_uses_command_header() {
    let html = render_role_markdown_to_telegram_html(TelegramTextRole::Assistant, "**Hello**");
    assert_eq!(html, "■ <b>Hello</b>");
}

#[test]
fn reflows_local_file_reference_bullets() {
    let html = render_markdown_to_telegram_html(
        "項目總覽：\n- [README.md](/tmp/README.md) 說明 `threadBridge` 是 bot。",
    );

    assert!(html.contains("<b>項目總覽：</b>"));
    assert!(html.contains("- <code>README.md</code> 說明 <code>threadBridge</code> 是 bot。"));
}

#[test]
fn preserves_two_line_file_bullets_without_added_indent() {
    let html = render_markdown_to_telegram_html(
        "- [docs/plan/session-lifecycle.md](/tmp/docs/plan/session-lifecycle.md)\n  重做 session / thread / workspace 的產品模型。",
    );

    assert!(html.contains(
        "- <code>docs/plan/session-lifecycle.md</code>\n重做 session / thread / workspace 的產品模型。"
    ));
}

#[test]
fn preserves_numbered_item_with_prefix_text() {
    let html = render_markdown_to_telegram_html(
        "1. 入口层：[`codex-rs/README.md`](/tmp/codex-rs/README.md)\n2. 下一项",
    );

    assert!(html.contains("1. 入口层：<code>codex-rs/README.md</code>\n2. 下一项"));
}

#[test]
fn rewrites_local_path_labels_as_code() {
    let html = render_markdown_to_telegram_html(
        "- [docs/callNanobanana.md](/tmp/docs/callNanobanana.md) 說明",
    );

    assert!(html.contains("- <code>docs/callNanobanana.md</code> 說明"));
}

#[test]
fn rewrites_local_filename_labels_as_code() {
    let html =
        render_markdown_to_telegram_html("- [AGENTS.md](/tmp/AGENTS.md) 說明 maintainer guide");

    assert!(html.contains("- <code>AGENTS.md</code> 說明 maintainer guide"));
}

#[test]
fn rewrites_external_links_as_code() {
    let html = render_markdown_to_telegram_html("- [OpenAI](https://openai.com) 說明 external");

    assert!(html.contains("- <code>OpenAI</code> 說明 external"));
}

#[test]
fn preserves_bullets_that_only_contain_inline_code_mentions() {
    let html = render_markdown_to_telegram_html(
        "- 對普通用户可配置的 hooks，目前只有 `SessionStart` 和 `Stop`，配置文件是 `hooks.json`。",
    );

    assert_eq!(
        html,
        "- 對普通用户可配置的 hooks，目前只有 <code>SessionStart</code> 和 <code>Stop</code>，配置文件是 <code>hooks.json</code>。"
    );
}

#[test]
fn renders_directory_like_inline_code_as_bold() {
    let html = render_markdown_to_telegram_html("例如 `pathofexile/`、`browser_control/`。");

    assert_eq!(html, "例如 <b>pathofexile/</b>、<b>browser_control/</b>。");
}

#[test]
fn keeps_regular_inline_code_as_code() {
    let html = render_markdown_to_telegram_html("保留 `hooks.json` 和 `SessionStart`。");

    assert_eq!(
        html,
        "保留 <code>hooks.json</code> 和 <code>SessionStart</code>。"
    );
}

#[test]
fn nested_lists_do_not_insert_extra_blank_line() {
    let html = render_markdown_to_telegram_html(
        "- 幫你把零散需求落成具體變更，例如：\n  - 加一個 Telegram helper\n  - 修 PoE 自動化腳本",
    );

    assert!(html.contains(
        "- 幫你把零散需求落成具體變更，例如：\n  - 加一個 Telegram helper\n  - 修 PoE 自動化腳本"
    ));
    assert!(!html.contains("例如：\n\n  - 加一個 Telegram helper"));
}

#[test]
fn final_reply_escapes_raw_html() {
    let plan = plan_final_assistant_reply("<script>alert(1)</script>", 4096);
    let TelegramReplyPlan::InlineHtml { text } = plan else {
        panic!("expected inline html");
    };

    assert!(text.contains("&lt;script&gt;alert(1)&lt;/script&gt;"));
    assert!(!text.contains("<script>"));
}

#[test]
fn unsupported_blocks_fallback_to_code_block() {
    let plan = plan_final_assistant_reply("> nested\n> quote", 4096);
    let TelegramReplyPlan::InlineHtml { text } = plan else {
        panic!("expected inline html");
    };

    assert!(text.contains("<pre><code>nested\nquote</code></pre>"));
}

#[test]
fn oversized_replies_switch_to_markdown_attachment() {
    let raw = "a".repeat(5000);
    let plan = plan_final_assistant_reply(&raw, 4096);
    let TelegramReplyPlan::MarkdownAttachment {
        notice_text,
        markdown,
    } = plan
    else {
        panic!("expected markdown attachment");
    };

    assert!(notice_text.starts_with(OVERFLOW_NOTICE));
    assert_eq!(markdown, raw);
}

#[test]
fn preview_snippet_uses_first_non_empty_paragraph() {
    let snippet = first_preview_snippet("\n\nFirst paragraph here.\n\nSecond paragraph");
    assert_eq!(snippet, "First paragraph here.");
}

#[test]
fn empty_reply_stays_plain_text() {
    let plan = plan_final_assistant_reply("   ", 4096);
    assert_eq!(
        plan,
        TelegramReplyPlan::InlinePlainText {
            text: String::new(),
            reason: "empty_reply",
        }
    );
}
