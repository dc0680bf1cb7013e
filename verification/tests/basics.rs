use threadbridge::clock::{instant_is_after, timestamp_is_after};
use threadbridge::json::{either_text_at, list_at, text_at};
use threadbridge::numbers::{parse_i64, parse_usize};
use threadbridge::paths::{file_name, is_absolute_path, join, normalize, parent};
use threadbridge::telegram_html::escape_html;
use threadbridge::text;

#[test]
fn texts_are_cut_and_joined() {
    assert_eq!(text::trim("  a b \n"), "a b");
    assert_eq!(text::split_words(" a  b\tc "), vec!["a", "b", "c"]);
    assert_eq!(text::lines("a\nb\r\nc\n"), vec!["a", "b", "c"]);
    assert_eq!(text::split_at_char("a:b::c", ':'), vec!["a", "b", "", "c"]);
    assert_eq!(text::join(&vec!["a".to_owned(), "b".to_owned()], ", "), "a, b");
    assert_eq!(text::strip_prefix("ws://x", "ws://"), Some("x"));
    assert_eq!(text::replace_char("a-b-c", '-', "+="), "a+=b+=c");
    assert!(text::has_text("haystack", "sta"));
    assert!(!text::has_text("haystack", "stb"));
}

#[test]
fn numbers_read_back() {
    assert_eq!(text::decimal_text(0), "0");
    assert_eq!(text::decimal_text(u64::MAX), u64::MAX.to_string());
    assert_eq!(text::signed_decimal_text(i64::MIN), i64::MIN.to_string());
    assert_eq!(parse_usize("+12"), Some(12));
    assert_eq!(parse_usize("-1"), None);
    assert_eq!(parse_usize(""), None);
    assert_eq!(parse_i64("-9223372036854775808"), Some(i64::MIN));
    assert_eq!(parse_i64("9223372036854775808"), None);
}

#[test]
fn paths_are_taken_apart() {
    assert!(is_absolute_path("/a"));
    assert_eq!(join("/a", "b"), "/a/b");
    assert_eq!(join("/a", "/b"), "/b");
    assert_eq!(file_name("/a/b/"), Some("b".to_owned()));
    assert_eq!(file_name("/"), None);
    assert_eq!(parent("/a/b"), Some("/a".to_owned()));
    assert_eq!(normalize("/a/./b"), "/a/b");
}

#[test]
fn instants_are_compared_across_zones() {
    assert!(timestamp_is_after(
        "2026-05-08T10:00:00+02:00",
        "2026-05-08T07:59:59.999Z"
    ));
    assert!(!timestamp_is_after(
        "2026-05-08T10:00:00+02:00",
        "2026-05-08T08:00:00Z"
    ));
    assert!(instant_is_after("x", Some((5, 1)), "y", Some((5, 0))));
    assert!(!instant_is_after("x", None, "y", Some((5, 0))));
}

#[test]
fn documents_are_read_by_pointer() {
    let document: serde_json::Value =
        serde_json::from_str(r#"{"a":{"b":"c"},"l":[1,2],"t":"u"}"#).unwrap();
    assert_eq!(text_at(&document, "/a/b").as_deref(), Some("c"));
    assert_eq!(text_at(&document, "/l"), None);
    assert_eq!(list_at(&document, "/l"), Some(2));
    assert_eq!(list_at(&document, "/t"), None);
    assert_eq!(either_text_at(&document, "/x", "/t").as_deref(), Some("u"));
}

#[test]
fn markup_is_escaped() {
    assert_eq!(escape_html("<a href=\"x\">&"), "&lt;a href=&quot;x&quot;&gt;&amp;");
}

#[test]
fn lists_are_sorted_and_distinct() {
    let list = vec!["b".to_owned(), "a".to_owned(), "b".to_owned()];
    assert_eq!(text::sorted_distinct(list), vec!["a", "b"]);
    assert!(text::comes_before("a", "ab"));
    assert!(!text::comes_before("b", "ab"));
}
