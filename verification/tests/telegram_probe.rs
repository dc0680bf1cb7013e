use threadbridge::telegram_probe::render_markdown_to_telegram_html;

#[test]
fn renders_supported_markdown_subset() {
    let html = render_markdown_to_telegram_html(
        "# Heading\n\n- [README.md](/tmp/README.md) use `cargo test`\n- **Bold** item",
    );

    assert!(html.contains("<b>Heading</b>"));
    assert!(html.contains("- <code>README.md</code>\n　use <code>cargo test</code>"));
    assert!(html.contains("- <b>Bold</b> item"));
}

#[test]
fn telegram_probe_escapes_raw_html() {
    let html = render_markdown_to_telegram_html("<script>alert(1)</script>");

    assert!(html.contains("&lt;script&gt;alert(1)&lt;/script&gt;"));
    assert!(!html.contains("<script>"));
}

#[test]
fn reflows_file_reference_bullet_into_two_lines() {
    let html = render_markdown_to_telegram_html(
        "- [README.md](/tmp/README.md) 說明 `threadBridge` 是 bot。",
    );

    assert!(
        html.contains("- <code>README.md</code>\n　說明 <code>threadBridge</code> 是 bot。")
    );
}

#[test]
fn bolds_short_section_labels_before_lists() {
    let html =
        render_markdown_to_telegram_html("項目總覽：\n- [README.md](/tmp/README.md) 說明");

    assert!(html.contains("<b>項目總覽：</b>"));
}

#[test]
fn rewrites_slashy_anchor_labels_as_code() {
    let html = render_markdown_to_telegram_html(
        "- [docs/callNanobanana.md](/tmp/docs/callNanobanana.md) 說明",
    );

    assert!(html.contains("- <code>docs/callNanobanana.md</code>\n　說明"));
}

#[test]
fn rewrites_local_filename_anchor_labels_as_code() {
    let html =
        render_markdown_to_telegram_html("- [AGENTS.md](/tmp/AGENTS.md) 說明 maintainer guide");

    assert!(html.contains("- <code>AGENTS.md</code>\n　說明 maintainer guide"));
}

#[test]
fn keeps_external_links_as_links() {
    let html = render_markdown_to_telegram_html("- [OpenAI](https://openai.com) 說明 external");

    assert!(html.contains("- <a href=\"https://openai.com\">OpenAI</a>\n　說明 external"));
}
