//! The final reply of a turn: how it is rendered, how it is delivered, and what is tried
//! when a delivery fails.
use pulldown_cmark::{Event, Tag};
use vstd::prelude::*;
use vstd::string::*;

use super::{TelegramSystemIntent, TelegramTextRole};
use crate::markdown;
use crate::markdown::{EventModel, TagModel};
use crate::paths;
use crate::telegram_html;
use crate::telegram_html::{DocumentModel, HtmlDocument, ListState};
use crate::text;

verus! {

broadcast use vstd::string::group_string_axioms;

/// A message may hold this many characters.
pub const INLINE_MESSAGE_CHAR_LIMIT: usize = 4096;

/// A preview of a long reply holds at most this many characters.
pub const PREVIEW_CHAR_LIMIT: usize = 800;

/// The name under which a long reply is attached.
pub const OVERFLOW_FILE_NAME: &'static str = "reply.md";

/// What is said when a reply is attached.
pub const OVERFLOW_NOTICE: &'static str =
    "Reply too long for inline Telegram delivery. Full response attached.";

/// What is said when an attached reply is too large.
pub const OVERFLOW_ATTACHMENT_LIMIT_NOTICE: &'static str =
    "Reply attachment exceeded Telegram's bot upload limit and wasn't delivered.";

/// A bot may upload a document of this many bytes.
pub const TELEGRAM_BOT_DOCUMENT_LIMIT_BYTES: u64 = 52_428_800;

/// How a final reply is delivered.
#[derive(Debug, Clone, PartialEq, Eq)]
pub enum TelegramReplyPlan {
    InlineHtml { text: String },
    InlinePlainText { text: String, reason: &'static str },
    MarkdownAttachment { notice_text: String, markdown: String },
}

/// A reply under construction: the document, how deep the current element without a
/// counterpart is nested, and the text that it holds so far.
pub struct ReplyModel {
    pub doc: DocumentModel,
    pub depth: nat,
    pub held: Seq<char>,
}

/// Whether an element has no counterpart in Telegram's HTML and is shown as a code block.
pub open spec fn is_unsupported(tag: TagModel) -> bool {
    ||| tag is BlockQuote
    ||| tag is FootnoteDefinition
    ||| tag is Table
    ||| tag is TableHead
    ||| tag is TableRow
    ||| tag is TableCell
}

/// Whether inline code names a directory: it ends with a slash, and all of it is letters,
/// digits, slashes, dashes, underscores and dots.
pub open spec fn is_directory_label(code: Seq<char>) -> bool {
    &&& telegram_html::ends_in(code, '/')
    &&& forall|i: int| 0 <= i < code.len() ==> is_label_char(#[trigger] code[i])
}

/// Whether a character may stand in the name of a directory.
pub open spec fn is_label_char(c: char) -> bool {
    ||| 'a' <= c <= 'z'
    ||| 'A' <= c <= 'Z'
    ||| '0' <= c <= '9'
    ||| c == '/'
    ||| c == '-'
    ||| c == '_'
    ||| c == '.'
}

/// Inline code as HTML: bold where it names a directory.
pub open spec fn inline_code(code: Seq<char>) -> Seq<char> {
    if is_directory_label(code) {
        "<b>"@ + telegram_html::escaped(code) + "</b>"@
    } else {
        "<code>"@ + telegram_html::escaped(code) + "</code>"@
    }
}

/// The held text moved to the document as a code block, where there is any.
pub open spec fn flushed(reply: ReplyModel) -> ReplyModel {
    let held = text::trimmed(reply.held);
    ReplyModel {
        doc: DocumentModel {
            html: if held.len() == 0 {
                reply.doc.html
            } else {
                telegram_html::block_broken(
                    telegram_html::block_broken(reply.doc.html) + "<pre><code>"@
                        + telegram_html::escaped(held) + "</code></pre>"@,
                )
            },
            lists: reply.doc.lists,
        },
        depth: reply.depth,
        held: Seq::empty(),
    }
}

/// The held text after an event inside an element without a counterpart.
pub open spec fn held_after(held: Seq<char>, event: EventModel) -> Seq<char> {
    match event {
        EventModel::Start(_) => held,
        EventModel::End(_) => held,
        EventModel::Text(body) => held + body,
        EventModel::Html(body) => held + body,
        EventModel::Code(code) => (held.push('`') + code).push('`'),
        EventModel::SoftBreak => held.push('\n'),
        EventModel::HardBreak => held.push('\n'),
        EventModel::Rule => (if held.len() > 0 && held.last() != '\n' {
            held.push('\n')
        } else {
            held
        }) + "----\n"@,
        EventModel::FootnoteReference(label) => (held.push('[') + label).push(']'),
        EventModel::TaskListMarker(checked) => held + (if checked {
            "[x] "@
        } else {
            "[ ] "@
        }),
    }
}

/// The reply after an event inside an element without a counterpart.
pub open spec fn held_step(reply: ReplyModel, event: EventModel) -> ReplyModel {
    match event {
        EventModel::Start(_) => ReplyModel {
            doc: reply.doc,
            depth: reply.depth + 1,
            held: reply.held,
        },
        EventModel::End(_) => {
            let left = ReplyModel {
                doc: reply.doc,
                depth: (reply.depth - 1) as nat,
                held: reply.held,
            };
            if left.depth == 0 {
                flushed(left)
            } else {
                left
            }
        },
        _ => ReplyModel {
            doc: reply.doc,
            depth: reply.depth,
            held: held_after(reply.held, event),
        },
    }
}

/// The break around a list: an empty line outside of all lists, a new line inside of one.
pub open spec fn list_broken(html: Seq<char>, lists: Seq<ListState>) -> Seq<char> {
    if lists.len() == 0 {
        telegram_html::block_broken(html)
    } else {
        telegram_html::line_broken(html)
    }
}

/// The document after an event outside of elements without a counterpart.
pub open spec fn reply_rendered(doc: DocumentModel, event: EventModel) -> DocumentModel {
    match event {
        EventModel::Start(TagModel::List(start)) => DocumentModel {
            html: list_broken(doc.html, doc.lists),
            lists: doc.lists.push(telegram_html::opened_list(start)),
        },
        EventModel::End(TagModel::List(_)) => {
            let outer = if doc.lists.len() == 0 {
                doc.lists
            } else {
                doc.lists.drop_last()
            };
            DocumentModel { html: list_broken(doc.html, outer), lists: outer }
        },
        EventModel::Code(code) => DocumentModel {
            html: doc.html + inline_code(code),
            lists: doc.lists,
        },
        _ => telegram_html::rendered(doc, event),
    }
}

/// The reply after an event.
pub open spec fn reply_step(reply: ReplyModel, event: EventModel) -> ReplyModel {
    if reply.depth > 0 {
        held_step(reply, event)
    } else {
        match event {
            EventModel::Start(tag) if is_unsupported(tag) => ReplyModel {
                doc: reply.doc,
                depth: 1,
                held: Seq::empty(),
            },
            _ => ReplyModel {
                doc: reply_rendered(reply.doc, event),
                depth: 0,
                held: reply.held,
            },
        }
    }
}

/// The reply after all the events.
pub open spec fn reply_document(events: Seq<EventModel>) -> ReplyModel
    decreases events.len(),
{
    if events.len() == 0 {
        ReplyModel {
            doc: DocumentModel { html: Seq::empty(), lists: Seq::empty() },
            depth: 0,
            held: Seq::empty(),
        }
    } else {
        reply_step(reply_document(events.drop_last()), events.last())
    }
}

/// The HTML of a reply once no event is left.
pub open spec fn finished(reply: ReplyModel) -> Seq<char> {
    if reply.depth > 0 {
        text::trimmed(flushed(reply).doc.html)
    } else {
        text::trimmed(reply.doc.html)
    }
}

/// The label of a link as code.
pub open spec fn label_as_code(label: Seq<char>) -> Seq<char> {
    if text::occurs_at(label, "<code>"@, 0) && text::occurs_at(
        label,
        "</code>"@,
        label.len() - "</code>"@.len(),
    ) {
        label
    } else {
        "<code>"@ + label + "</code>"@
    }
}

/// The text with every link replaced by its label as code.
pub open spec fn links_as_code(html: Seq<char>) -> Seq<char>
    decreases html.len(),
{
    match text::find_from(html, "<a "@, 0) {
        None => html,
        Some(start) => match text::find_from(html.skip(start), seq!['>'], 0) {
            None => html,
            Some(tag_end) => {
                let inner = html.skip(start + tag_end + 1);
                match text::find_from(inner, "</a>"@, 0) {
                    None => html,
                    Some(close) => {
                        proof {
                            text::lemma_find_from(html, "<a "@, 0);
                            text::lemma_find_from(html.skip(start), seq!['>'], 0);
                            text::lemma_find_from(inner, "</a>"@, 0);
                        }
                        html.take(start) + label_as_code(inner.take(close)) + links_as_code(
                            inner.skip(close + "</a>"@.len()),
                        )
                    },
                }
            },
        },
    }
}

/// A line of the reply after its layout is adjusted: section labels are bold.
pub open spec fn reply_line(lines: Seq<Seq<char>>, i: int) -> Seq<char> {
    if telegram_html::is_section_label(lines[i], telegram_html::next_filled(lines, i + 1)) {
        "<b>"@ + text::trimmed(lines[i]) + "</b>"@
    } else {
        lines[i]
    }
}

/// The reply after its layout is adjusted.
pub open spec fn reply_layout(html: Seq<char>) -> Seq<char> {
    let lines = text::lines_of(html);
    text::joined(Seq::new(lines.len(), |i: int| reply_line(lines, i)), "\n"@)
}

/// The HTML for the events of a document.
pub open spec fn reply_html(events: Seq<EventModel>) -> Seq<char> {
    reply_layout(links_as_code(finished(reply_document(events))))
}

/// The text cut to the limit, with three dots in place of what is left out.
pub open spec fn cut(s: Seq<char>, limit: nat) -> Seq<char> {
    if s.len() <= limit {
        s
    } else if limit < 3 {
        "..."@
    } else {
        s.take(limit - 3) + "..."@
    }
}

/// The first paragraph that is not blank, trimmed.
pub open spec fn first_paragraph(s: Seq<char>) -> Seq<char>
    decreases s.len(),
{
    match text::find_from(s, seq!['\n', '\n'], 0) {
        None => text::trimmed(s),
        Some(end) => if text::is_blank(s.take(end)) {
            proof {
                text::lemma_find_from(s, seq!['\n', '\n'], 0);
            }
            first_paragraph(s.skip(end + 2))
        } else {
            text::trimmed(s.take(end))
        },
    }
}

/// The first paragraph on one line, cut to the limit of a preview.
pub open spec fn preview_snippet(s: Seq<char>) -> Seq<char> {
    cut(text::joined(text::words(first_paragraph(s)), " "@), PREVIEW_CHAR_LIMIT as nat)
}

/// What is said when a reply is attached.
pub open spec fn overflow_notice(s: Seq<char>) -> Seq<char> {
    let preview = preview_snippet(s);
    if preview.len() == 0 {
        OVERFLOW_NOTICE@
    } else {
        OVERFLOW_NOTICE@ + "\n\n"@ + preview
    }
}

/// Whether a plan is the one for a reply with the given text and HTML: the HTML inline
/// where it is not blank and fits, the text inline where the HTML is blank, and the text
/// attached where the HTML does not fit.
pub open spec fn is_plan_for(
    plan: TelegramReplyPlan,
    body: Seq<char>,
    html: Seq<char>,
    limit: nat,
) -> bool {
    match plan {
        TelegramReplyPlan::InlineHtml { text } => {
            &&& !text::is_blank(html)
            &&& html.len() <= limit
            &&& text@ == html
        },
        TelegramReplyPlan::InlinePlainText { text, reason } => {
            &&& text::is_blank(html)
            &&& text@ == body
            &&& reason@ == "html_render_empty"@
        },
        TelegramReplyPlan::MarkdownAttachment { notice_text, markdown } => {
            &&& !text::is_blank(html)
            &&& html.len() > limit
            &&& notice_text@ == overflow_notice(body)
            &&& markdown@ == body
        },
    }
}

/// Whether a plan says that there is nothing to deliver.
pub open spec fn is_empty_plan(plan: TelegramReplyPlan) -> bool {
    plan matches TelegramReplyPlan::InlinePlainText { text, reason } && text@.len() == 0 && reason@
        == "empty_reply"@
}

/// Renders the events of a reply one after the other.
pub struct TelegramHtmlRenderer {
    document: HtmlDocument,
    unsupported_depth: usize,
    unsupported_text: String,
}

impl View for TelegramHtmlRenderer {
    type V = ReplyModel;

    closed spec fn view(&self) -> ReplyModel {
        ReplyModel {
            doc: self.document@,
            depth: self.unsupported_depth as nat,
            held: self.unsupported_text@,
        }
    }
}

impl TelegramHtmlRenderer {
    /// A renderer that has seen no event.
    pub fn new() -> (res: Self)
        ensures
            res@ == reply_document(Seq::empty()),
    {
        TelegramHtmlRenderer {
            document: HtmlDocument::new(),
            unsupported_depth: 0,
            unsupported_text: String::new(),
        }
    }

    /// Renders the next event.
    pub fn handle_event(&mut self, event: &Event<'_>)
        requires
            old(self)@.depth < usize::MAX,
        ensures
            final(self)@ == reply_step(old(self)@, markdown::event_model(*event)),
    {
        if self.unsupported_depth > 0 {
            self.handle_unsupported_event(event);
            return;
        }
        match event {
            Event::Start(Tag::List(start)) => {
                if self.document.list_stack.len() == 0 {
                    self.document.push_block_break();
                } else {
                    self.document.push_line_break();
                }
                let list = match start {
                    Some(first) => ListState { next_index: *first, ordered: true },
                    None => ListState { next_index: 1, ordered: false },
                };
                self.document.list_stack.push(list);
            },
            Event::Start(tag) => {
                if is_unsupported_tag(tag) {
                    self.unsupported_depth = 1;
                    self.unsupported_text = String::new();
                } else {
                    self.document.push_event(event);
                }
            },
            Event::End(Tag::List(_)) => {
                let closed = self.document.list_stack.pop();
                proof {
                    if closed is None {
                        assert(self.document.list_stack@ =~= old(self)@.doc.lists);
                    } else {
                        assert(self.document.list_stack@ =~= old(self)@.doc.lists.drop_last());
                    }
                }
                if self.document.list_stack.len() == 0 {
                    self.document.push_block_break();
                } else {
                    self.document.push_line_break();
                }
            },
            Event::Code(code) => {
                let code = markdown::cow_string(code);
                let html = render_inline_code(code.as_str());
                self.document.push_html(html.as_str());
            },
            _ => self.document.push_event(event),
        }
    }

    /// Collects an event inside an element without a counterpart.
    fn handle_unsupported_event(&mut self, event: &Event<'_>)
        requires
            0 < old(self).unsupported_depth < usize::MAX,
        ensures
            final(self)@ == held_step(old(self)@, markdown::event_model(*event)),
    {
        match event {
            Event::Start(_) => {
                self.unsupported_depth += 1;
            },
            Event::End(_) => {
                self.unsupported_depth -= 1;
                if self.unsupported_depth == 0 {
                    self.flush_unsupported_block();
                }
            },
            Event::Text(body) => {
                let body = markdown::cow_string(body);
                self.unsupported_text.push_str(body.as_str());
            },
            Event::Html(body) => {
                let body = markdown::cow_string(body);
                self.unsupported_text.push_str(body.as_str());
            },
            Event::Code(code) => {
                let code = markdown::cow_string(code);
                self.unsupported_text.push('`');
                self.unsupported_text.push_str(code.as_str());
                self.unsupported_text.push('`');
            },
            Event::SoftBreak => self.unsupported_text.push('\n'),
            Event::HardBreak => self.unsupported_text.push('\n'),
            Event::Rule => {
                let chars = text::to_chars(self.unsupported_text.as_str());
                if chars.len() > 0 && chars[chars.len() - 1] != '\n' {
                    self.unsupported_text.push('\n');
                }
                self.unsupported_text.push_str("----\n");
            },
            Event::FootnoteReference(label) => {
                let label = markdown::cow_string(label);
                self.unsupported_text.push('[');
                self.unsupported_text.push_str(label.as_str());
                self.unsupported_text.push(']');
            },
            Event::TaskListMarker(checked) => {
                if *checked {
                    self.unsupported_text.push_str("[x] ");
                } else {
                    self.unsupported_text.push_str("[ ] ");
                }
            },
        }
    }

    /// Moves the collected text to the document as a code block.
    fn flush_unsupported_block(&mut self)
        ensures
            final(self)@ == flushed(old(self)@),
    {
        let held = text::trim(self.unsupported_text.as_str()).to_owned();
        if !held.as_str().is_empty() {
            self.document.push_block_break();
            self.document.push_html("<pre><code>");
            self.document.push_text(held.as_str());
            self.document.push_html("</code></pre>");
            self.document.push_block_break();
        }
        self.unsupported_text = String::new();
    }

    /// The HTML of the events seen so far.
    pub fn finish(self) -> (res: String)
        ensures
            res@ == finished(self@),
    {
        let mut renderer = self;
        if renderer.unsupported_depth > 0 {
            renderer.flush_unsupported_block();
        }
        text::trim(renderer.document.html.as_str()).to_owned()
    }
}

/// Whether an element has no counterpart in Telegram's HTML.
pub fn is_unsupported_tag(tag: &Tag<'_>) -> (res: bool)
    ensures
        res == is_unsupported(markdown::tag_model(*tag)),
{
    match tag {
        Tag::BlockQuote => true,
        Tag::FootnoteDefinition(_) => true,
        Tag::Table(_) => true,
        Tag::TableHead => true,
        Tag::TableRow => true,
        Tag::TableCell => true,
        _ => false,
    }
}

/// Whether inline code names a directory.
pub fn looks_like_directory_label(code: &str) -> (res: bool)
    ensures
        res == is_directory_label(code@),
{
    let chars = text::to_chars(code);
    if chars.len() == 0 || chars[chars.len() - 1] != '/' {
        return false;
    }
    let mut i: usize = 0;
    while i < chars.len()
        invariant
            i <= chars@.len(),
            chars@ == code@,
            forall|k: int| 0 <= k < i ==> is_label_char(#[trigger] code@[k]),
        decreases chars@.len() - i,
    {
        let c = chars[i];
        if !(('a' <= c && c <= 'z') || ('A' <= c && c <= 'Z') || ('0' <= c && c <= '9') || c == '/'
            || c == '-' || c == '_' || c == '.') {
            proof {
                assert(!is_label_char(code@[i as int]));
            }
            return false;
        }
        i += 1;
    }
    true
}

/// Inline code as HTML.
pub fn render_inline_code(code: &str) -> (res: String)
    ensures
        res@ == inline_code(code@),
{
    let directory = looks_like_directory_label(code);
    let html = telegram_html::escape_html(code);
    let mut res = if directory {
        "<b>".to_owned()
    } else {
        "<code>".to_owned()
    };
    res.push_str(html.as_str());
    if directory {
        res.push_str("</b>");
    } else {
        res.push_str("</code>");
    }
    res
}

/// The text with every link replaced by its label as code.
pub fn rewrite_markdown_links_as_code(html: &str) -> (res: String)
    ensures
        res@ == links_as_code(html@),
{
    let anchor = text::to_chars("<a ");
    let bracket: Vec<char> = vec!['>'];
    let close_tag = text::to_chars("</a>");
    proof {
        assert(bracket@ =~= seq!['>']);
    }
    let mut rewritten = String::new();
    let mut rest = text::to_chars(html);
    proof {
        assert(rewritten@ + links_as_code(rest@) =~= links_as_code(html@));
    }
    loop
        invariant
            anchor@ == "<a "@,
            bracket@ == seq!['>'],
            close_tag@ == "</a>"@,
            rewritten@ + links_as_code(rest@) == links_as_code(html@),
        decreases rest@.len(),
    {
        let start = match text::position_from(&rest, &anchor, 0) {
            Some(at) => at,
            None => {
                let tail = text::string_of(&rest);
                rewritten.push_str(tail.as_str());
                return rewritten;
            },
        };
        let opened = sub_chars(&rest, start, rest.len());
        proof {
            assert(opened@ =~= rest@.skip(start as int));
        }
        let tag_end = match text::position_from(&opened, &bracket, 0) {
            Some(at) => at,
            None => {
                let tail = text::string_of(&rest);
                rewritten.push_str(tail.as_str());
                return rewritten;
            },
        };
        let inner = sub_chars(&opened, tag_end + 1, opened.len());
        proof {
            assert(inner@ =~= rest@.skip(start + tag_end + 1));
        }
        let close = match text::position_from(&inner, &close_tag, 0) {
            Some(at) => at,
            None => {
                let tail = text::string_of(&rest);
                rewritten.push_str(tail.as_str());
                return rewritten;
            },
        };
        let ghost before = rewritten@;
        let head = text::string_between(&rest, 0, start);
        rewritten.push_str(head.as_str());
        let label = text::string_between(&inner, 0, close);
        let shown = code_label(label.as_str());
        rewritten.push_str(shown.as_str());
        let next = sub_chars(&inner, close + close_tag.len(), inner.len());
        proof {
            assert(head@ =~= rest@.take(start as int));
            assert(label@ =~= inner@.take(close as int));
            assert(next@ =~= inner@.skip(close + "</a>"@.len()));
            assert(links_as_code(rest@) == head@ + label_as_code(label@) + links_as_code(next@));
            assert(before + (head@ + label_as_code(label@) + links_as_code(next@)) =~= rewritten@
                + links_as_code(next@));
        }
        rest = next;
    }
}

/// The characters from `from` up to `to`.
fn sub_chars(chars: &Vec<char>, from: usize, to: usize) -> (res: Vec<char>)
    requires
        from <= to <= chars@.len(),
    ensures
        res@ == chars@.subrange(from as int, to as int),
{
    let part = text::string_between(chars, from, to);
    text::to_chars(part.as_str())
}

/// The label of a link as code.
fn code_label(label: &str) -> (res: String)
    ensures
        res@ == label_as_code(label@),
{
    if text::starts_with(label, "<code>") && text::ends_with(label, "</code>") {
        return label.to_owned();
    }
    let mut res = "<code>".to_owned();
    res.push_str(label);
    res.push_str("</code>");
    res
}

/// The reply after its layout is adjusted.
pub fn apply_layout_adjustments(html: &str) -> (res: String)
    ensures
        res@ == reply_layout(html@),
{
    let lines = text::lines(html);
    let ghost all = text::lines_of(html@);
    let ghost wanted = Seq::new(all.len(), |i: int| reply_line(all, i));
    let mut adjusted: Vec<String> = Vec::new();
    let mut i: usize = 0;
    while i < lines.len()
        invariant
            i <= lines@.len(),
            text::views(lines@) == all,
            all == text::lines_of(html@),
            wanted == Seq::new(all.len(), |i: int| reply_line(all, i)),
            text::views(adjusted@) =~= wanted.take(i as int),
        decreases lines@.len() - i,
    {
        proof {
            assert(all[i as int] == lines@[i as int]@);
        }
        let next = match telegram_html::next_filled_line(&lines, i + 1) {
            Some(k) => Some(lines[k].as_str()),
            None => None,
        };
        let line = lines[i].as_str();
        let shown = if telegram_html::should_bold_section_label(line, next) {
            let mut label = "<b>".to_owned();
            label.push_str(text::trim(line));
            label.push_str("</b>");
            label
        } else {
            line.to_owned()
        };
        let ghost before = adjusted@;
        adjusted.push(shown);
        proof {
            assert(text::views(adjusted@) =~= text::views(before).push(adjusted@.last()@));
            assert(wanted.take(i + 1) =~= wanted.take(i as int).push(wanted[i as int]));
        }
        i += 1;
    }
    proof {
        assert(text::views(lines@).len() == lines@.len());
        assert(wanted.take(i as int) =~= wanted);
    }
    text::join(&adjusted, "\n")
}

/// Every event nests at most one level deeper.
proof fn lemma_depth(events: Seq<EventModel>)
    ensures
        reply_document(events).depth <= events.len(),
    decreases events.len(),
{
    if events.len() > 0 {
        lemma_depth(events.drop_last());
    }
}

/// The HTML for the events of a document.
pub fn render_reply_events(events: &Vec<Event<'_>>) -> (res: String)
    ensures
        res@ == reply_html(markdown::models(events@)),
{
    let mut renderer = TelegramHtmlRenderer::new();
    let ghost all = markdown::models(events@);
    let mut i: usize = 0;
    proof {
        assert(all.take(0) =~= Seq::empty());
    }
    while i < events.len()
        invariant
            i <= events@.len(),
            all == markdown::models(events@),
            renderer@ == reply_document(all.take(i as int)),
        decreases events@.len() - i,
    {
        proof {
            let next = all.take(i + 1);
            assert(next.drop_last() =~= all.take(i as int));
            assert(next.last() == markdown::event_model(events@[i as int]));
            lemma_depth(all.take(i as int));
        }
        renderer.handle_event(&events[i]);
        i += 1;
    }
    proof {
        assert(all.take(i as int) =~= all);
    }
    let html = rewrite_markdown_links_as_code(renderer.finish().as_str());
    apply_layout_adjustments(html.as_str())
}

/// Renders a Markdown document to the HTML that Telegram accepts.
pub fn render_markdown_to_telegram_html(markdown: &str) -> (res: String)
    ensures
        res@ == reply_html(markdown::markdown_events(markdown@)),
{
    let events = markdown::parse_markdown(markdown);
    render_reply_events(&events)
}

/// Rendered HTML with the marker of a role before it.
pub fn wrap_rendered_html_with_role(role: TelegramTextRole, rendered_html: &str) -> (res: String)
    ensures
        res@ == super::prefixed(super::role_marker(role), rendered_html@),
{
    super::format_prefixed_text(super::telegram_role_marker(role), rendered_html)
}

/// A Markdown document as HTML with the marker of a role before it.
pub fn render_role_markdown_to_telegram_html(role: TelegramTextRole, markdown: &str) -> (res:
    String)
    ensures
        res@ == super::prefixed(
            super::role_marker(role),
            reply_html(markdown::markdown_events(markdown@)),
        ),
{
    let rendered = render_markdown_to_telegram_html(markdown);
    wrap_rendered_html_with_role(role, rendered.as_str())
}

/// The text cut to the limit, with three dots in place of what is left out.
pub fn truncate_chars(s: &str, max_chars: usize) -> (res: String)
    ensures
        res@ == cut(s@, max_chars as nat),
{
    let chars = text::to_chars(s);
    if chars.len() <= max_chars {
        return s.to_owned();
    }
    let kept: usize = if max_chars < 3 {
        0
    } else {
        max_chars - 3
    };
    let mut res = text::string_between(&chars, 0, kept);
    proof {
        assert(chars@.subrange(0, kept as int) =~= chars@.take(kept as int));
        assert(kept == 0 ==> res@ + "..."@ =~= "..."@);
    }
    res.push_str("...");
    res
}

/// The first paragraph on one line, cut to the limit of a preview.
pub fn first_preview_snippet(raw_text: &str) -> (res: String)
    ensures
        res@ == preview_snippet(raw_text@),
{
    let break_chars: Vec<char> = vec!['\n', '\n'];
    proof {
        assert(break_chars@ =~= seq!['\n', '\n']);
    }
    let mut rest = text::to_chars(raw_text);
    let paragraph: String;
    loop
        invariant
            break_chars@ == seq!['\n', '\n'],
            first_paragraph(rest@) == first_paragraph(raw_text@),
        ensures
            paragraph@ == first_paragraph(raw_text@),
        decreases rest@.len(),
    {
        match text::position_from(&rest, &break_chars, 0) {
            None => {
                let last = text::string_of(&rest);
                paragraph = text::trim(last.as_str()).to_owned();
                break;
            },
            Some(end) => {
                let segment = text::string_between(&rest, 0, end);
                proof {
                    assert(segment@ =~= rest@.take(end as int));
                }
                let trimmed = text::trim(segment.as_str());
                if !trimmed.is_empty() {
                    paragraph = trimmed.to_owned();
                    break;
                }
                let next = sub_chars(&rest, end + 2, rest.len());
                proof {
                    assert(next@ =~= rest@.skip(end + 2));
                }
                rest = next;
            },
        }
    }
    let words = text::split_words(paragraph.as_str());
    let compact = text::join(&words, " ");
    truncate_chars(compact.as_str(), PREVIEW_CHAR_LIMIT)
}

/// What is said when a reply is attached.
pub fn build_overflow_notice(raw_text: &str) -> (res: String)
    ensures
        res@ == overflow_notice(raw_text@),
{
    let preview = first_preview_snippet(raw_text);
    let mut res = OVERFLOW_NOTICE.to_owned();
    if !preview.as_str().is_empty() {
        res.push_str("\n\n");
        res.push_str(preview.as_str());
    }
    res
}

/// The plan for a reply whose HTML is known.
pub fn plan_final_assistant_reply_from_rendered(
    trimmed: &str,
    html: String,
    inline_limit: usize,
) -> (res: TelegramReplyPlan)
    ensures
        is_plan_for(res, trimmed@, html@, inline_limit as nat),
{
    if text::trim(html.as_str()).is_empty() {
        return TelegramReplyPlan::InlinePlainText {
            text: trimmed.to_owned(),
            reason: "html_render_empty",
        };
    }
    if text::to_chars(html.as_str()).len() <= inline_limit {
        TelegramReplyPlan::InlineHtml { text: html }
    } else {
        TelegramReplyPlan::MarkdownAttachment {
            notice_text: build_overflow_notice(trimmed),
            markdown: trimmed.to_owned(),
        }
    }
}

/// The plan for a reply.
pub fn plan_final_assistant_reply(raw_text: &str, inline_limit: usize) -> (res: TelegramReplyPlan)
    ensures
        if text::is_blank(raw_text@) {
            is_empty_plan(res)
        } else {
            is_plan_for(
                res,
                text::trimmed(raw_text@),
                reply_html(markdown::markdown_events(text::trimmed(raw_text@))),
                inline_limit as nat,
            )
        },
{
    let trimmed = text::trim(raw_text);
    if trimmed.is_empty() {
        return TelegramReplyPlan::InlinePlainText { text: String::new(), reason: "empty_reply" };
    }
    let html = render_markdown_to_telegram_html(trimmed);
    plan_final_assistant_reply_from_rendered(trimmed, html, inline_limit)
}

/// Where an attached reply is kept while it is sent.
pub fn overflow_attachment_path(state_path: &str, timestamp_millis: i64) -> (res: String)
    ensures
        res@ == paths::below(
            paths::below(state_path@, "telegram"@),
            "overflow-reply-"@ + text::signed_decimal(timestamp_millis as int) + ".md"@,
        ),
{
    let directory = paths::join(state_path, "telegram");
    let mut name = "overflow-reply-".to_owned();
    let stamp = text::signed_decimal_text(timestamp_millis);
    name.push_str(stamp.as_str());
    name.push_str(".md");
    paths::join(directory.as_str(), name.as_str())
}

/// Whether an attached reply may be uploaded.
pub fn attachment_fits(size_bytes: u64) -> (res: bool)
    ensures
        res == (size_bytes <= 50 * 1024 * 1024),
{
    size_bytes <= TELEGRAM_BOT_DOCUMENT_LIMIT_BYTES
}

/// What is awaited while a reply is delivered.
#[derive(Clone, Copy, Debug, PartialEq, Eq, Structural)]
pub enum ReplyStage {
    Html,
    Text,
    Notice,
    Attachment,
    Finished,
    Failed,
}

/// How a step of the delivery went. An attachment can be withheld because of its size.
#[derive(Clone, Copy, Debug, PartialEq, Eq, Structural)]
pub enum ReplyOutcome {
    Sent,
    Withheld,
    Failed,
}

/// What is to be done next.
#[derive(Debug, Clone, PartialEq, Eq)]
pub enum ReplyAction {
    SendHtml(String),
    SendText(String),
    Attach(String),
    Finish,
    Fail,
}

/// The model of an action.
pub enum ReplyActionModel {
    SendHtml(Seq<char>),
    SendText(Seq<char>),
    Attach(Seq<char>),
    Finish,
    Fail,
}

impl View for ReplyAction {
    type V = ReplyActionModel;

    open spec fn view(&self) -> ReplyActionModel {
        match self {
            ReplyAction::SendHtml(html) => ReplyActionModel::SendHtml(html@),
            ReplyAction::SendText(body) => ReplyActionModel::SendText(body@),
            ReplyAction::Attach(markdown) => ReplyActionModel::Attach(markdown@),
            ReplyAction::Finish => ReplyActionModel::Finish,
            ReplyAction::Fail => ReplyActionModel::Fail,
        }
    }
}

/// What the assistant says, with its marker.
pub open spec fn said(body: Seq<char>) -> Seq<char> {
    super::prefixed(super::role_marker(TelegramTextRole::Assistant), body)
}

/// The first step of the delivery of a plan.
pub open spec fn first_step(plan: TelegramReplyPlan) -> (ReplyStage, ReplyActionModel) {
    match plan {
        TelegramReplyPlan::InlineHtml { text } => (
            ReplyStage::Html,
            ReplyActionModel::SendHtml(text@),
        ),
        TelegramReplyPlan::InlinePlainText { text, .. } => (
            ReplyStage::Text,
            ReplyActionModel::SendText(said(text@)),
        ),
        TelegramReplyPlan::MarkdownAttachment { notice_text, .. } => (
            ReplyStage::Notice,
            ReplyActionModel::SendText(said(notice_text@)),
        ),
    }
}

/// The step after an outcome: HTML that is refused is sent again as text, the notice is
/// followed by the attachment, and an attachment that is withheld by a warning.
pub open spec fn next_step(stage: ReplyStage, outcome: ReplyOutcome, body: Seq<char>) -> (
    ReplyStage,
    ReplyActionModel,
) {
    match (stage, outcome) {
        (ReplyStage::Html, ReplyOutcome::Failed) => (
            ReplyStage::Text,
            ReplyActionModel::SendText(said(body)),
        ),
        (ReplyStage::Notice, ReplyOutcome::Sent) => (
            ReplyStage::Attachment,
            ReplyActionModel::Attach(body),
        ),
        (ReplyStage::Attachment, ReplyOutcome::Withheld) => (
            ReplyStage::Text,
            ReplyActionModel::SendText(
                super::prefixed(
                    super::system_marker(TelegramSystemIntent::Warning),
                    OVERFLOW_ATTACHMENT_LIMIT_NOTICE@,
                ),
            ),
        ),
        (ReplyStage::Finished, _) => (ReplyStage::Finished, ReplyActionModel::Finish),
        (ReplyStage::Failed, _) => (ReplyStage::Failed, ReplyActionModel::Fail),
        (_, ReplyOutcome::Sent) => (ReplyStage::Finished, ReplyActionModel::Finish),
        _ => (ReplyStage::Failed, ReplyActionModel::Fail),
    }
}

/// The delivery of one final reply.
pub struct FinalReplyDelivery {
    pub stage: ReplyStage,
    pub body: String,
}

impl FinalReplyDelivery {
    /// Begins to deliver a reply.
    pub fn begin(raw_text: &str) -> (res: (Self, ReplyAction))
        ensures
            res.0.body@ == text::trimmed(raw_text@),
            exists|plan: TelegramReplyPlan|
                {
                    &&& (res.0.stage, res.1@) == #[trigger] first_step(plan)
                    &&& if text::is_blank(raw_text@) {
                        is_empty_plan(plan)
                    } else {
                        is_plan_for(
                            plan,
                            text::trimmed(raw_text@),
                            said(reply_html(markdown::markdown_events(text::trimmed(raw_text@)))),
                            INLINE_MESSAGE_CHAR_LIMIT as nat,
                        )
                    }
                },
    {
        let trimmed = text::trim(raw_text);
        let plan = if trimmed.is_empty() {
            TelegramReplyPlan::InlinePlainText { text: String::new(), reason: "empty_reply" }
        } else {
            let html = render_role_markdown_to_telegram_html(TelegramTextRole::Assistant, trimmed);
            plan_final_assistant_reply_from_rendered(trimmed, html, INLINE_MESSAGE_CHAR_LIMIT)
        };
        FinalReplyDelivery::begin_planned(trimmed, plan)
    }

    /// Begins to deliver a reply whose plan is made.
    pub fn begin_planned(trimmed: &str, plan: TelegramReplyPlan) -> (res: (Self, ReplyAction))
        ensures
            res.0.body@ == trimmed@,
            (res.0.stage, res.1@) == first_step(plan),
    {
        let body = trimmed.to_owned();
        match plan {
            TelegramReplyPlan::InlineHtml { text } => (
                FinalReplyDelivery { stage: ReplyStage::Html, body },
                ReplyAction::SendHtml(text),
            ),
            TelegramReplyPlan::InlinePlainText { text, .. } => (
                FinalReplyDelivery { stage: ReplyStage::Text, body },
                ReplyAction::SendText(
                    super::format_role_text(TelegramTextRole::Assistant, text.as_str()),
                ),
            ),
            TelegramReplyPlan::MarkdownAttachment { notice_text, .. } => (
                FinalReplyDelivery { stage: ReplyStage::Notice, body },
                ReplyAction::SendText(
                    super::format_role_text(TelegramTextRole::Assistant, notice_text.as_str()),
                ),
            ),
        }
    }

    /// Goes on after an outcome.
    pub fn advance(&mut self, outcome: ReplyOutcome) -> (res: ReplyAction)
        ensures
            (final(self).stage, res@) == next_step(old(self).stage, outcome, old(self).body@),
            final(self).body == old(self).body,
    {
        match (self.stage, outcome) {
            (ReplyStage::Html, ReplyOutcome::Failed) => {
                self.stage = ReplyStage::Text;
                ReplyAction::SendText(
                    super::format_role_text(TelegramTextRole::Assistant, self.body.as_str()),
                )
            },
            (ReplyStage::Notice, ReplyOutcome::Sent) => {
                self.stage = ReplyStage::Attachment;
                ReplyAction::Attach(self.body.clone())
            },
            (ReplyStage::Attachment, ReplyOutcome::Withheld) => {
                self.stage = ReplyStage::Text;
                ReplyAction::SendText(
                    super::format_system_text(
                        TelegramSystemIntent::Warning,
                        OVERFLOW_ATTACHMENT_LIMIT_NOTICE,
                    ),
                )
            },
            (ReplyStage::Finished, _) => ReplyAction::Finish,
            (ReplyStage::Failed, _) => ReplyAction::Fail,
            (_, ReplyOutcome::Sent) => {
                self.stage = ReplyStage::Finished;
                ReplyAction::Finish
            },
            _ => {
                self.stage = ReplyStage::Failed;
                ReplyAction::Fail
            },
        }
    }
}

/// How many outcomes a delivery can still await.
pub open spec fn outcomes_left(stage: ReplyStage) -> nat {
    match stage {
        ReplyStage::Html => 2,
        ReplyStage::Text => 1,
        ReplyStage::Notice => 3,
        ReplyStage::Attachment => 2,
        ReplyStage::Finished => 0,
        ReplyStage::Failed => 0,
    }
}

/// Every outcome brings a delivery closer to its end, whatever the outcome is.
pub proof fn law_delivery_ends(stage: ReplyStage, outcome: ReplyOutcome, body: Seq<char>)
    requires
        outcomes_left(stage) > 0,
    ensures
        outcomes_left(next_step(stage, outcome, body).0) < outcomes_left(stage),
{
}

/// A reply that is not blank is never lost: it is sent inline as HTML or as text, or it is
/// attached in full once the notice has been sent.
pub proof fn law_reply_is_delivered(
    plan: TelegramReplyPlan,
    body: Seq<char>,
    html: Seq<char>,
    limit: nat,
)
    requires
        is_plan_for(plan, body, html, limit),
    ensures
        match first_step(plan) {
            (ReplyStage::Html, action) => {
                &&& action == ReplyActionModel::SendHtml(html)
                &&& next_step(ReplyStage::Html, ReplyOutcome::Failed, body).1
                    == ReplyActionModel::SendText(said(body))
            },
            (ReplyStage::Text, action) => action == ReplyActionModel::SendText(said(body)),
            (stage, _) => next_step(stage, ReplyOutcome::Sent, body) == (
                ReplyStage::Attachment,
                ReplyActionModel::Attach(body),
            ),
        },
{
}

/// A text is cut to the limit, or to the three dots where the limit is smaller.
pub proof fn law_cut_is_bounded(s: Seq<char>, limit: nat)
    ensures
        cut(s, limit).len() <= limit || cut(s, limit) == "..."@,
        s.len() <= limit ==> cut(s, limit) == s,
{
    reveal_strlit("...");
}

/// The preview of a long reply holds at most as many characters as a preview may.
pub proof fn law_preview_is_bounded(s: Seq<char>)
    ensures
        preview_snippet(s).len() <= PREVIEW_CHAR_LIMIT,
{
    reveal_strlit("...");
}

/// The document of a reply has known tags only.
proof fn lemma_document_tags(events: Seq<EventModel>)
    ensures
        telegram_html::has_only_tags(reply_document(events).doc.html),
    decreases events.len(),
{
    telegram_html::lemma_fixed_tags();
    if events.len() > 0 {
        let before = reply_document(events.drop_last());
        let event = events.last();
        lemma_document_tags(events.drop_last());
        if before.depth > 0 {
            lemma_flushed_tags(
                ReplyModel { doc: before.doc, depth: (before.depth - 1) as nat, held: before.held },
            );
        } else {
            telegram_html::lemma_broken_tags(before.doc.html);
            telegram_html::lemma_rendered_tags(before.doc, event);
            if let EventModel::Code(code) = event {
                telegram_html::lemma_escaped_tags(code);
                let html = telegram_html::escaped(code);
                telegram_html::lemma_tags_appended("<b>"@, html);
                telegram_html::lemma_tags_appended("<b>"@ + html, "</b>"@);
                telegram_html::lemma_tags_appended("<code>"@, html);
                telegram_html::lemma_tags_appended("<code>"@ + html, "</code>"@);
                telegram_html::lemma_tags_appended(before.doc.html, inline_code(code));
            }
        }
    }
}

/// A code block for held text adds known tags only.
proof fn lemma_flushed_tags(reply: ReplyModel)
    requires
        telegram_html::has_only_tags(reply.doc.html),
    ensures
        telegram_html::has_only_tags(flushed(reply).doc.html),
{
    telegram_html::lemma_fixed_tags();
    let broken = telegram_html::block_broken(reply.doc.html);
    let held = telegram_html::escaped(text::trimmed(reply.held));
    telegram_html::lemma_broken_tags(reply.doc.html);
    telegram_html::lemma_escaped_tags(text::trimmed(reply.held));
    telegram_html::lemma_tags_appended(broken, "<pre><code>"@);
    telegram_html::lemma_tags_appended(broken + "<pre><code>"@, held);
    telegram_html::lemma_tags_appended(broken + "<pre><code>"@ + held, "</code></pre>"@);
    telegram_html::lemma_broken_tags(broken + "<pre><code>"@ + held + "</code></pre>"@);
}

/// Replacing links by their labels leaves known tags only.
proof fn lemma_links_tags(html: Seq<char>)
    requires
        telegram_html::has_only_tags(html),
    ensures
        telegram_html::has_only_tags(links_as_code(html)),
    decreases html.len(),
{
    telegram_html::lemma_fixed_tags();
    text::lemma_find_from(html, "<a "@, 0);
    if let Some(start) = text::find_from(html, "<a "@, 0) {
        text::lemma_find_from(html.skip(start), seq!['>'], 0);
        if let Some(tag_end) = text::find_from(html.skip(start), seq!['>'], 0) {
            let inner = html.skip(start + tag_end + 1);
            text::lemma_find_from(inner, "</a>"@, 0);
            if let Some(close) = text::find_from(inner, "</a>"@, 0) {
                reveal_strlit("<a ");
                reveal_strlit("</a>");
                assert(html.subrange(start, start + 3)[0] == '<');
                assert(html[start] == '<');
                telegram_html::lemma_tags_cut(html, start);
                telegram_html::lemma_tags_skipped(html, start + tag_end + 1);
                assert(inner.subrange(close, close + 4)[0] == '<');
                assert(inner[close] == '<');
                telegram_html::lemma_tags_cut(inner, close);
                let label = inner.take(close);
                telegram_html::lemma_tags_appended("<code>"@, label);
                telegram_html::lemma_tags_appended("<code>"@ + label, "</code>"@);
                telegram_html::lemma_tags_skipped(inner, close + 4);
                let rest = inner.skip(close + 4);
                lemma_links_tags(rest);
                telegram_html::lemma_tags_appended(html.take(start), label_as_code(label));
                telegram_html::lemma_tags_appended(
                    html.take(start) + label_as_code(label),
                    links_as_code(rest),
                );
            }
        }
    }
}

/// Whatever a document holds, its HTML has no tags but those that Telegram knows: raw HTML
/// in the document is shown, never interpreted.
pub proof fn law_reply_has_only_tags(events: Seq<EventModel>)
    ensures
        telegram_html::has_only_tags(reply_html(events)),
{
    let reply = reply_document(events);
    lemma_document_tags(events);
    lemma_flushed_tags(reply);
    telegram_html::lemma_trimmed_tags(reply.doc.html);
    telegram_html::lemma_trimmed_tags(flushed(reply).doc.html);
    lemma_links_tags(finished(reply));
    let html = links_as_code(finished(reply));
    let lines = text::lines_of(html);
    let shown = Seq::new(lines.len(), |i: int| reply_line(lines, i));
    assert forall|k: int| 0 <= k < shown.len() implies telegram_html::has_only_tags(
        #[trigger] shown[k],
    ) by {
        telegram_html::lemma_line_tags(html, k);
        telegram_html::lemma_trimmed_tags(lines[k]);
        telegram_html::lemma_fixed_tags();
        let label = text::trimmed(lines[k]);
        telegram_html::lemma_tags_appended("<b>"@, label);
        telegram_html::lemma_tags_appended("<b>"@ + label, "</b>"@);
    }
    telegram_html::lemma_joined_tags(shown);
}

/// In a reply each kind of inline element has its own tag: emphasis is italic, strong text bold,
/// struck text struck. What stands in it is escaped, and the reply goes on behind it.
pub proof fn law_replies_mark_inline_elements(reply: ReplyModel, body: Seq<char>)
    requires
        reply.depth == 0,
    ensures
        ({
            let opened = reply_step(reply, EventModel::Start(TagModel::Emphasis));
            let filled = reply_step(opened, EventModel::Text(body));
            let closed = reply_step(filled, EventModel::End(TagModel::Emphasis));
            closed.doc.html == reply.doc.html + "<i>"@ + telegram_html::escaped(body) + "</i>"@
                && closed.depth == 0
        }),
        ({
            let opened = reply_step(reply, EventModel::Start(TagModel::Strong));
            let filled = reply_step(opened, EventModel::Text(body));
            let closed = reply_step(filled, EventModel::End(TagModel::Strong));
            closed.doc.html == reply.doc.html + "<b>"@ + telegram_html::escaped(body) + "</b>"@
                && closed.depth == 0
        }),
        ({
            let opened = reply_step(reply, EventModel::Start(TagModel::Strikethrough));
            let filled = reply_step(opened, EventModel::Text(body));
            let closed = reply_step(filled, EventModel::End(TagModel::Strikethrough));
            closed.doc.html == reply.doc.html + "<s>"@ + telegram_html::escaped(body) + "</s>"@
                && closed.depth == 0
        }),
{
}

/// Inline code is set as code, but the name of a directory, which ends with a slash and holds
/// letters, digits, slashes, dashes, underscores and dots only, is bold.
pub proof fn law_directories_are_bold(reply: ReplyModel, code: Seq<char>)
    requires
        reply.depth == 0,
    ensures
        ({
            let after = reply_step(reply, EventModel::Code(code));
            let names_directory = code.len() > 0 && code.last() == '/' && forall|i: int|
                #![trigger code[i]]
                0 <= i < code.len() ==> ('a' <= code[i] <= 'z' || 'A' <= code[i] <= 'Z' || '0'
                    <= code[i] <= '9' || code[i] == '/' || code[i] == '-' || code[i] == '_'
                    || code[i] == '.');
            &&& after.depth == 0 && after.doc.lists == reply.doc.lists
            &&& names_directory ==> after.doc.html == reply.doc.html + "<b>"@
                + telegram_html::escaped(code) + "</b>"@
            &&& !names_directory ==> after.doc.html == reply.doc.html + "<code>"@
                + telegram_html::escaped(code) + "</code>"@
        }),
{
    let after = reply_step(reply, EventModel::Code(code));
    let bold = reply.doc.html + "<b>"@ + telegram_html::escaped(code) + "</b>"@;
    assert(reply.doc.html + ("<b>"@ + telegram_html::escaped(code) + "</b>"@) =~= bold);
    let set = reply.doc.html + "<code>"@ + telegram_html::escaped(code) + "</code>"@;
    assert(reply.doc.html + ("<code>"@ + telegram_html::escaped(code) + "</code>"@) =~= set);
    if is_directory_label(code) {
        assert forall|i: int| #![trigger code[i]] 0 <= i < code.len() implies ('a' <= code[i] <= 'z'
            || 'A' <= code[i] <= 'Z' || '0' <= code[i] <= '9' || code[i] == '/' || code[i] == '-'
            || code[i] == '_' || code[i] == '.') by {
            assert(is_label_char(code[i]));
        }
    } else if code.len() > 0 && code.last() == '/' {
        let i = choose|i: int| 0 <= i < code.len() && !is_label_char(#[trigger] code[i]);
        assert(0 <= i < code.len() && !is_label_char(code[i]));
    }
}

/// A quotation, a footnote or a table has no counterpart: what it says is shown preformatted, set
/// apart by empty lines; nothing is shown of one that says nothing. The reply then goes on as
/// before.
pub proof fn law_elements_without_counterpart_are_preformatted(
    reply: ReplyModel,
    tag: TagModel,
    body: Seq<char>,
)
    requires
        reply.depth == 0,
        tag is BlockQuote || tag is FootnoteDefinition || tag is Table || tag is TableHead || tag
            is TableRow || tag is TableCell,
    ensures
        ({
            let opened = reply_step(reply, EventModel::Start(tag));
            let filled = reply_step(opened, EventModel::Text(body));
            let closed = reply_step(filled, EventModel::End(tag));
            &&& closed.depth == 0 && closed.doc.lists == reply.doc.lists
            &&& !text::is_blank(body) ==> closed.doc.html == telegram_html::block_broken(
                reply.doc.html,
            ) + "<pre><code>"@ + telegram_html::escaped(text::trimmed(body))
                + "</code></pre>\n\n"@
            &&& text::is_blank(body) ==> closed.doc.html == reply.doc.html
        }),
{
    reveal_strlit("</code></pre>");
    reveal_strlit("</code></pre>\n\n");
    let held = Seq::<char>::empty() + body;
    assert(held =~= body);
    let head = telegram_html::block_broken(reply.doc.html) + "<pre><code>"@
        + telegram_html::escaped(text::trimmed(body));
    let block = head + "</code></pre>"@;
    assert(block.last() == '>');
    assert(block.push('\n').push('\n') =~= head + "</code></pre>\n\n"@);
}

/// Elements inside one without a counterpart only deepen it: its text is held back until all of
/// them have ended, and then shown once.
pub proof fn law_nested_elements_are_held_back(reply: ReplyModel, event: EventModel)
    requires
        reply.depth > 0,
    ensures
        ({
            let after = reply_step(reply, event);
            &&& event is Start ==> after.depth == reply.depth + 1 && after.held == reply.held
            &&& event is End ==> after.depth == reply.depth - 1
            &&& event !is Start && event !is End ==> after.depth == reply.depth
                && reply.held.is_prefix_of(after.held)
            &&& after.depth > 0 ==> after.doc == reply.doc
            &&& after.depth == 0 ==> after.held.len() == 0
            &&& event matches EventModel::Text(body) ==> after.held == reply.held + body
            &&& event matches EventModel::Html(body) ==> after.held == reply.held + body
            &&& event matches EventModel::Code(code) ==> after.held == reply.held + "`"@ + code
                + "`"@
            &&& event matches EventModel::FootnoteReference(label) ==> after.held == reply.held
                + "["@ + label + "]"@
            &&& event is SoftBreak || event is HardBreak ==> after.held == reply.held + "\n"@
            &&& event matches EventModel::TaskListMarker(checked) ==> after.held == reply.held
                + if checked {
                "[x] "@
            } else {
                "[ ] "@
            }
        }),
{
    reveal_strlit("`");
    reveal_strlit("[");
    reveal_strlit("]");
    reveal_strlit("\n");
    match event {
        EventModel::Code(code) => {
            assert((reply.held.push('`') + code).push('`') =~= reply.held + "`"@ + code + "`"@);
        },
        EventModel::FootnoteReference(label) => {
            assert((reply.held.push('[') + label).push(']') =~= reply.held + "["@ + label + "]"@);
        },
        EventModel::SoftBreak => {
            assert(reply.held.push('\n') =~= reply.held + "\n"@);
        },
        EventModel::HardBreak => {
            assert(reply.held.push('\n') =~= reply.held + "\n"@);
        },
        _ => {},
    }
}

/// A list begins and ends with an empty line where it stands in no other list, and with a new line
/// where it does. A numbered list counts from its first number; the lists around it are as they
/// were once it has ended.
pub proof fn law_lists_nest(reply: ReplyModel, start: Option<u64>)
    requires
        reply.depth == 0,
    ensures
        ({
            let opened = reply_step(reply, EventModel::Start(TagModel::List(start)));
            let closed = reply_step(opened, EventModel::End(TagModel::List(start)));
            let broken = if reply.doc.lists.len() == 0 {
                telegram_html::block_broken(reply.doc.html)
            } else {
                telegram_html::line_broken(reply.doc.html)
            };
            &&& opened.doc.html == broken
            &&& opened.doc.lists.len() == reply.doc.lists.len() + 1
            &&& opened.doc.lists.last().ordered == (start is Some)
            &&& start matches Some(first) ==> opened.doc.lists.last().next_index == first
            &&& closed.doc.lists == reply.doc.lists
            &&& closed.doc.html == broken
        }),
{
    let opened = reply_step(reply, EventModel::Start(TagModel::List(start)));
    assert(opened.doc.lists.drop_last() =~= reply.doc.lists);
    telegram_html::law_breaks_end_lines(reply.doc.html);
}

/// A reply that is shown inline is shown as HTML, if that is not blank and a message can hold it;
/// where it is blank the text itself is shown. A reply that no message can hold is attached in
/// full, and the notice begins with a sentence that says so.
pub proof fn law_long_replies_are_attached(
    plan: TelegramReplyPlan,
    body: Seq<char>,
    html: Seq<char>,
)
    requires
        is_plan_for(plan, body, html, INLINE_MESSAGE_CHAR_LIMIT as nat),
    ensures
        text::is_blank(html) <==> plan is InlinePlainText,
        !text::is_blank(html) && html.len() <= 4096 <==> plan is InlineHtml,
        !text::is_blank(html) && html.len() > 4096 <==> plan is MarkdownAttachment,
        plan matches TelegramReplyPlan::InlineHtml { text } ==> text@ == html,
        plan matches TelegramReplyPlan::InlinePlainText { text, .. } ==> text@ == body,
        plan matches TelegramReplyPlan::MarkdownAttachment { notice_text, markdown } ==> markdown@
            == body && text::occurs_at(
            notice_text@,
            "Reply too long for inline Telegram delivery. Full response attached."@,
            0,
        ),
{
    let preview = preview_snippet(body);
    let sentence = OVERFLOW_NOTICE@;
    let notice = overflow_notice(body);
    assert(notice.subrange(0, sentence.len() as int) =~= sentence);
}

/// A text that is too long is cut to the limit exactly: its beginning is kept, and three dots
/// stand for the rest.
pub proof fn law_cut_keeps_the_beginning(s: Seq<char>, limit: nat)
    requires
        3 <= limit < s.len(),
    ensures
        cut(s, limit).len() == limit,
        cut(s, limit).take(limit - 3) == s.take(limit - 3),
        text::occurs_at(cut(s, limit), "..."@, limit - 3),
{
    reveal_strlit("...");
    assert(cut(s, limit).take(limit - 3) =~= s.take(limit - 3));
    assert(cut(s, limit).subrange(limit - 3, limit as int) =~= "..."@);
}

/// A delivery goes on where a step failed only from HTML to text; a notice that was sent is
/// followed by the attachment, and an attachment that is withheld by a warning. Nothing else is
/// sent twice.
pub proof fn law_delivery_falls_back(stage: ReplyStage, outcome: ReplyOutcome, body: Seq<char>)
    ensures
        ({
            let (next, action) = next_step(stage, outcome, body);
            &&& action is SendHtml ==> false
            &&& stage is Html && outcome is Failed ==> action == ReplyActionModel::SendText(
                said(body),
            )
            &&& stage is Notice && outcome is Sent ==> action == ReplyActionModel::Attach(body)
            &&& stage is Attachment && outcome is Withheld ==> (
            action matches ReplyActionModel::SendText(warning) && text::occurs_at(
                warning,
                "Warning: "@,
                0,
            ))
            &&& (stage is Html || stage is Text || stage is Attachment) && outcome is Sent ==> action
                is Finish
            &&& (stage is Text || stage is Notice || stage is Attachment) && outcome is Failed
                ==> action is Fail
            &&& action is Finish <==> next is Finished
            &&& action is Fail <==> next is Failed
        }),
{
    reveal_strlit("Warning:");
    reveal_strlit("Warning: ");
    reveal_strlit(" ");
    let warning = super::prefixed("Warning:"@, OVERFLOW_ATTACHMENT_LIMIT_NOTICE@);
    reveal_strlit(
        "Reply attachment exceeded Telegram's bot upload limit and wasn't delivered.",
    );
    let notice = OVERFLOW_ATTACHMENT_LIMIT_NOTICE@;
    if text::is_blank(notice) {
        assert(text::is_white(notice[0]));
    }
    assert(!text::is_blank(notice));
    assert(warning.subrange(0, 9) =~= "Warning: "@);
}

/// Links are shown as code by their labels, one after the other; a reply without a link stays as it
/// is, and a label that is code already is not marked again.
pub proof fn law_links_are_shown_as_code(
    before: Seq<char>,
    attributes: Seq<char>,
    label: Seq<char>,
    rest: Seq<char>,
    html: Seq<char>,
)
    requires
        html == before + "<a "@ + attributes + seq!['>'] + label + "</a>"@ + rest,
        forall|i: int| 0 <= i < attributes.len() ==> #[trigger] attributes[i] != '>',
        forall|i: int| 0 <= i < before.len() ==> !#[trigger] text::occurs_at(html, "<a "@, i),
        forall|i: int| 0 <= i < label.len() ==> !#[trigger] text::occurs_at(
            label + "</a>"@ + rest,
            "</a>"@,
            i,
        ),
    ensures
        links_as_code(html) == before + label_as_code(label) + links_as_code(rest),
        label.len() > 0 && label[0] != '<' ==> label_as_code(label) == "<code>"@ + label
            + "</code>"@,
        label_as_code("<code>"@ + label + "</code>"@) == "<code>"@ + label + "</code>"@,
        (forall|i: int| 0 <= i ==> !#[trigger] text::occurs_at(rest, "<a "@, i)) ==> links_as_code(
            rest,
        ) == rest,
{
    reveal_strlit("<a ");
    reveal_strlit("</a>");
    reveal_strlit("<code>");
    reveal_strlit("</code>");
    let start = before.len() as int;
    assert(html.subrange(start, start + 3) =~= "<a "@);
    text::law_the_first_position_is_found(html, "<a "@, start);
    let tag = html.skip(start);
    let end: int = 3int + attributes.len();
    assert(tag =~= "<a "@ + attributes + seq!['>'] + label + "</a>"@ + rest);
    assert(tag.subrange(end, end + 1) =~= seq!['>']);
    let mark = seq!['>'];
    assert forall|i: int| 0 <= i < end implies !#[trigger] text::occurs_at(tag, mark, i) by {
        if text::occurs_at(tag, mark, i) {
            assert(tag.subrange(i, i + 1)[0] == tag[i]);
            if i >= 3 {
                assert(tag[i] == attributes[i - 3]);
            }
        }
    }
    text::law_the_first_position_is_found(tag, mark, end);
    let inner = html.skip(start + end + 1);
    assert(inner =~= label + "</a>"@ + rest);
    let close = label.len() as int;
    assert(inner.subrange(close, close + 4) =~= "</a>"@);
    text::law_the_first_position_is_found(inner, "</a>"@, close);
    assert(inner.take(close) =~= label);
    assert(inner.skip(close + 4) =~= rest);
    assert(html.take(start) =~= before);
    if label.len() > 0 && label[0] != '<' {
        if text::occurs_at(label, "<code>"@, 0) {
            assert(label.subrange(0, 6)[0] == label[0]);
        }
    }
    let code = "<code>"@ + label + "</code>"@;
    assert(code.subrange(0, 6) =~= "<code>"@);
    assert(code.subrange(code.len() - 7, code.len() as int) =~= "</code>"@);
    if forall|i: int| 0 <= i ==> !#[trigger] text::occurs_at(rest, "<a "@, i) {
        text::lemma_find_from(rest, "<a "@, 0);
    }
}

/// The first paragraph of a text ends at the first empty line; paragraphs that are blank are passed
/// over, and a text without an empty line is one paragraph.
pub proof fn law_paragraphs_end_at_empty_lines(first: Seq<char>, rest: Seq<char>)
    requires
        forall|i: int| 0 <= i < first.len() ==> !#[trigger] text::occurs_at(
            first + "\n\n"@ + rest,
            "\n\n"@,
            i,
        ),
    ensures
        !text::is_blank(first) ==> first_paragraph(first + "\n\n"@ + rest) == text::trimmed(first),
        text::is_blank(first) ==> first_paragraph(first + "\n\n"@ + rest) == first_paragraph(rest),
        (forall|i: int| 0 <= i ==> !#[trigger] text::occurs_at(rest, "\n\n"@, i))
            ==> first_paragraph(rest) == text::trimmed(rest),
{
    reveal_strlit("\n\n");
    assert("\n\n"@ =~= seq!['\n', '\n']);
    let whole = first + "\n\n"@ + rest;
    let end = first.len() as int;
    assert(whole.subrange(end, end + 2) =~= "\n\n"@);
    text::law_the_first_position_is_found(whole, "\n\n"@, end);
    assert(whole.take(end) =~= first);
    assert(whole.skip(end + 2) =~= rest);
    if forall|i: int| 0 <= i ==> !#[trigger] text::occurs_at(rest, "\n\n"@, i) {
        text::lemma_find_from(rest, "\n\n"@, 0);
    }
}

/// Behind the sentence of the notice stands a preview of the reply, where it has one, set apart by an
/// empty line: the words of its first paragraph.
pub proof fn law_notices_preview_the_reply(s: Seq<char>)
    ensures
        ({
            let preview = cut(text::joined(text::words(first_paragraph(s)), " "@), 800);
            let sentence = "Reply too long for inline Telegram delivery. Full response attached."@;
            overflow_notice(s) == if preview.len() == 0 {
                sentence
            } else {
                sentence + "\n\n"@ + preview
            }
        }),
{
}

/// Every line of a reply is kept in its place, a label of a section in bold.
pub proof fn law_replies_are_laid_out_line_by_line(html: Seq<char>, i: int)
    requires
        0 <= i < text::lines_of(html).len(),
    ensures
        ({
            let lines = text::lines_of(html);
            let shown = if telegram_html::is_section_label(
                lines[i],
                telegram_html::next_filled(lines, i + 1),
            ) {
                "<b>"@ + text::trimmed(lines[i]) + "</b>"@
            } else {
                lines[i]
            };
            text::contains(reply_layout(html), shown)
        }),
{
    let lines = text::lines_of(html);
    let shown = Seq::new(lines.len(), |k: int| reply_line(lines, k));
    text::law_joined_holds_every_part(shown, "\n"@, i);
    assert(shown[i] == reply_line(lines, i));
}

} // verus!
