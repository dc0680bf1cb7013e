//! A Markdown renderer that sets file references in list items on lines of their own.
use pulldown_cmark::{Event, Tag};
use vstd::prelude::*;
use vstd::string::*;

use crate::markdown;
use crate::markdown::{EventModel, TagModel};
use crate::telegram_html;
use crate::telegram_html::{DocumentModel, HtmlDocument, ListState};
use crate::text;

verus! {

broadcast use vstd::string::group_string_axioms;

/// The document after an event.
pub open spec fn probe_step(doc: DocumentModel, event: EventModel) -> DocumentModel {
    match event {
        EventModel::Start(TagModel::List(start)) => DocumentModel {
            html: telegram_html::block_broken(doc.html),
            lists: doc.lists.push(telegram_html::opened_list(start)),
        },
        EventModel::End(TagModel::List(_)) => DocumentModel {
            html: telegram_html::block_broken(doc.html),
            lists: if doc.lists.len() == 0 {
                doc.lists
            } else {
                doc.lists.drop_last()
            },
        },
        EventModel::Code(code) => DocumentModel {
            html: doc.html + "<code>"@ + telegram_html::escaped(code) + "</code>"@,
            lists: doc.lists,
        },
        _ => telegram_html::rendered(doc, event),
    }
}

/// The document after all the events.
pub open spec fn probe_document(events: Seq<EventModel>) -> DocumentModel
    decreases events.len(),
{
    if events.len() == 0 {
        DocumentModel { html: Seq::empty(), lists: Seq::empty() }
    } else {
        probe_step(probe_document(events.drop_last()), events.last())
    }
}

/// The HTML of the events before its layout is adjusted.
pub open spec fn probe_html(events: Seq<EventModel>) -> Seq<char> {
    text::trimmed(probe_document(events).html)
}

/// The destination in an opening anchor tag.
pub open spec fn anchor_href(open_tag: Seq<char>) -> Option<Seq<char>> {
    match text::find_from(open_tag, "href=\""@, 0) {
        Some(at) => {
            let rest = open_tag.skip(at + "href=\""@.len());
            match text::find_from(rest, seq!['"'], 0) {
                Some(end) => Some(rest.take(end)),
                None => None,
            }
        },
        None => None,
    }
}

/// Whether a destination is a path on this machine.
pub open spec fn is_local_href(href: Seq<char>) -> bool {
    ||| text::occurs_at(href, "/"@, 0)
    ||| text::occurs_at(href, "./"@, 0)
    ||| text::occurs_at(href, "../"@, 0)
}

/// Whether the opening tag of an anchor ends before its closing tag begins.
pub open spec fn is_anchor(anchor: Seq<char>) -> bool {
    match (
        text::find_from(anchor, seq!['>'], 0),
        text::find_back(anchor, "</a>"@, anchor.len() as int),
    ) {
        (Some(open_end), Some(close)) => open_end < close,
        _ => true,
    }
}

/// An anchor as it is shown: its label as code where it leads to a local path and the label
/// has no space, the anchor itself otherwise.
pub open spec fn shown_anchor(anchor: Seq<char>) -> Seq<char> {
    match (
        text::find_from(anchor, seq!['>'], 0),
        text::find_back(anchor, "</a>"@, anchor.len() as int),
    ) {
        (Some(open_end), Some(close)) => {
            let label = anchor.subrange(open_end + 1, close);
            match anchor_href(anchor.take(open_end + 1)) {
                Some(href) if is_local_href(href) && !label.contains(' ') => "<code>"@ + label
                    + "</code>"@,
                _ => anchor,
            }
        },
        _ => anchor,
    }
}

/// The length of the marker of a list item.
pub open spec fn bullet_marker(body: Seq<char>) -> Option<nat> {
    if telegram_html::has_dash_marker(body) {
        Some(2)
    } else {
        telegram_html::ordered_marker(body)
    }
}

/// What stands before the text that continues a list item.
pub open spec fn continuation(indent: nat, marker_len: nat) -> Seq<char> {
    if marker_len == 0 {
        telegram_html::spaces(indent)
    } else {
        telegram_html::spaces(indent).push('　')
    }
}

/// How many bytes of white space a line begins with.
pub open spec fn indentation(line: Seq<char>) -> nat {
    let whole = text::byte_len(line);
    let body = text::byte_len(text::trimmed_start(line));
    if whole >= body {
        (whole - body) as nat
    } else {
        0
    }
}

/// A list item on two lines: the reference, and what is said of it.
pub open spec fn two_lines(
    line: Seq<char>,
    marker_len: nat,
    reference: Seq<char>,
    description: Seq<char>,
) -> Seq<char> {
    let body = text::trimmed_start(line);
    let indent = indentation(line);
    telegram_html::spaces(indent) + body.take(marker_len as int) + reference + "\n"@ + continuation(
        indent,
        marker_len,
    ) + description
}

/// A list item that begins with a reference to a file and goes on with a description, set
/// on two lines.
pub open spec fn reflowed(line: Seq<char>) -> Option<Seq<char>> {
    let body = text::trimmed_start(line);
    match bullet_marker(body) {
        None => None,
        Some(marker_len) => {
            let content = body.skip(marker_len as int);
            let after_anchor = match text::find_from(content, "</a>"@, 0) {
                Some(close) => text::trimmed_start(content.skip(close + "</a>"@.len())),
                None => Seq::empty(),
            };
            let after_code = match text::find_from(content, "</code>"@, 0) {
                Some(close) => text::trimmed_start(content.skip(close + "</code>"@.len())),
                None => Seq::empty(),
            };
            if after_anchor.len() > 0 {
                let close = text::find_from(content, "</a>"@, 0)->0;
                let anchor = content.take(close + "</a>"@.len());
                Some(two_lines(line, marker_len, shown_anchor(anchor), after_anchor))
            } else if after_code.len() > 0 {
                let close = text::find_from(content, "</code>"@, 0)->0;
                let code = content.take(close + "</code>"@.len());
                Some(two_lines(line, marker_len, code, after_code))
            } else {
                None
            }
        },
    }
}

/// Whether the first anchor that ends in a list item also begins in it.
pub open spec fn has_whole_anchor(line: Seq<char>) -> bool {
    let body = text::trimmed_start(line);
    match bullet_marker(body) {
        None => true,
        Some(marker_len) => {
            let content = body.skip(marker_len as int);
            match text::find_from(content, "</a>"@, 0) {
                Some(close) => is_anchor(content.take(close + "</a>"@.len())),
                None => true,
            }
        },
    }
}

/// A line of the document after the layout is adjusted.
pub open spec fn probe_line(lines: Seq<Seq<char>>, i: int) -> Seq<char> {
    let line = lines[i];
    if telegram_html::is_section_label(line, telegram_html::next_filled(lines, i + 1)) {
        "<b>"@ + text::trimmed(line) + "</b>"@
    } else {
        match reflowed(line) {
            Some(two) => two,
            None => line,
        }
    }
}

/// The document after the layout is adjusted.
pub open spec fn probe_layout(html: Seq<char>) -> Seq<char> {
    let lines = text::lines_of(html);
    text::joined(Seq::new(lines.len(), |i: int| probe_line(lines, i)), "\n"@)
}

/// Whether every line that is reflowed has its anchors whole.
pub open spec fn has_whole_anchors(html: Seq<char>) -> bool {
    let lines = text::lines_of(html);
    forall|i: int|
        0 <= i < lines.len() && !telegram_html::is_section_label(
            #[trigger] lines[i],
            telegram_html::next_filled(lines, i + 1),
        ) ==> has_whole_anchor(lines[i])
}

/// Renders the events of a document one after the other.
pub struct ProbeHtmlRenderer {
    document: HtmlDocument,
}

impl View for ProbeHtmlRenderer {
    type V = DocumentModel;

    closed spec fn view(&self) -> DocumentModel {
        self.document@
    }
}

impl ProbeHtmlRenderer {
    /// A renderer that has seen no event.
    pub fn new() -> (res: Self)
        ensures
            res@ == probe_document(Seq::empty()),
    {
        ProbeHtmlRenderer { document: HtmlDocument::new() }
    }

    /// Renders the next event.
    pub fn handle_event(&mut self, event: &Event<'_>)
        ensures
            final(self)@ == probe_step(old(self)@, markdown::event_model(*event)),
    {
        match event {
            Event::Start(Tag::List(start)) => {
                self.document.push_block_break();
                let list = match start {
                    Some(first) => ListState { next_index: *first, ordered: true },
                    None => ListState { next_index: 1, ordered: false },
                };
                self.document.list_stack.push(list);
            },
            Event::End(Tag::List(_)) => {
                let closed = self.document.list_stack.pop();
                proof {
                    if closed is None {
                        assert(self.document.list_stack@ =~= old(self)@.lists);
                    } else {
                        assert(self.document.list_stack@ =~= old(self)@.lists.drop_last());
                    }
                }
                self.document.push_block_break();
            },
            Event::Code(code) => {
                let code = markdown::cow_string(code);
                self.document.push_html("<code>");
                self.document.push_text(code.as_str());
                self.document.push_html("</code>");
            },
            _ => self.document.push_event(event),
        }
    }

    /// The HTML of the events seen so far.
    pub fn finish(self) -> (res: String)
        ensures
            res@ == text::trimmed(self@.html),
    {
        text::trim(self.document.html.as_str()).to_owned()
    }
}

/// The destination in an opening anchor tag.
pub fn extract_anchor_href(open_tag: &str) -> (res: Option<String>)
    ensures
        text::opt_view(res) == anchor_href(open_tag@),
{
    let chars = text::to_chars(open_tag);
    let key = text::to_chars("href=\"");
    let quote: Vec<char> = vec!['"'];
    proof {
        assert(quote@ =~= seq!['"']);
    }
    match text::position_from(&chars, &key, 0) {
        Some(at) => {
            let rest_text = text::string_between(&chars, at + key.len(), chars.len());
            let rest = text::to_chars(rest_text.as_str());
            proof {
                assert(rest@ =~= open_tag@.skip(at + "href=\""@.len()));
            }
            match text::position_from(&rest, &quote, 0) {
                Some(end) => {
                    proof {
                        assert(rest@.subrange(0, end as int) =~= rest@.take(end as int));
                    }
                    Some(text::string_between(&rest, 0, end))
                },
                None => None,
            }
        },
        None => None,
    }
}

/// Whether a destination is a path on this machine.
pub fn is_local_reference_href(href: &str) -> (res: bool)
    ensures
        res == is_local_href(href@),
{
    text::starts_with(href, "/") || text::starts_with(href, "./") || text::starts_with(href, "../")
}

/// Whether the characters from `from` up to `to` hold a space.
fn has_space(chars: &Vec<char>, from: usize, to: usize) -> (res: bool)
    requires
        from <= to <= chars@.len(),
    ensures
        res == chars@.subrange(from as int, to as int).contains(' '),
{
    let ghost part = chars@.subrange(from as int, to as int);
    let mut i: usize = from;
    while i < to
        invariant
            from <= i <= to <= chars@.len(),
            part == chars@.subrange(from as int, to as int),
            forall|k: int| 0 <= k < i - from ==> part[k] != ' ',
        decreases to - i,
    {
        if chars[i] == ' ' {
            proof {
                assert(part[i - from] == ' ');
            }
            return true;
        }
        proof {
            assert(part[i - from] == chars@[i as int]);
        }
        i += 1;
    }
    false
}

/// An anchor as it is shown.
pub fn rewrite_anchor_reference_for_probe(anchor_html: &str) -> (res: String)
    requires
        is_anchor(anchor_html@),
    ensures
        res@ == shown_anchor(anchor_html@),
{
    let chars = text::to_chars(anchor_html);
    let bracket: Vec<char> = vec!['>'];
    let close_tag = text::to_chars("</a>");
    proof {
        assert(bracket@ =~= seq!['>']);
    }
    let open_end = match text::position_from(&chars, &bracket, 0) {
        Some(at) => at,
        None => return anchor_html.to_owned(),
    };
    let close = match text::last_position(&chars, &close_tag) {
        Some(at) => at,
        None => return anchor_html.to_owned(),
    };
    let open = text::string_between(&chars, 0, open_end + 1);
    proof {
        assert(open@ =~= anchor_html@.take(open_end + 1));
    }
    let local = match extract_anchor_href(open.as_str()) {
        Some(href) => is_local_reference_href(href.as_str()),
        None => false,
    };
    if local && !has_space(&chars, open_end + 1, close) {
        let mut shown = "<code>".to_owned();
        let label = text::string_between(&chars, open_end + 1, close);
        shown.push_str(label.as_str());
        shown.push_str("</code>");
        return shown;
    }
    anchor_html.to_owned()
}

/// What stands before the text that continues a list item.
pub fn continuation_indent(indent: usize, marker_len: usize) -> (res: String)
    ensures
        res@ == continuation(indent as nat, marker_len as nat),
{
    let mut res = telegram_html::spaces_text(indent);
    if marker_len != 0 {
        res.push('　');
    }
    res
}

/// The length of the marker of a list item, in characters.
fn bullet_marker_len(body: &str) -> (res: Option<usize>)
    ensures
        match res {
            Some(n) => bullet_marker(body@) == Some(n as nat) && n <= body@.len(),
            None => bullet_marker(body@) is None,
        },
{
    if telegram_html::starts_with_dash_marker(body) {
        Some(2)
    } else {
        telegram_html::ordered_marker_len(body)
    }
}

/// A list item on two lines.
fn set_on_two_lines(line: &str, marker_len: usize, reference: &str, description: &str) -> (res:
    String)
    requires
        marker_len <= text::trimmed_start(line@).len(),
    ensures
        res@ == two_lines(line@, marker_len as nat, reference@, description@),
{
    let body = text::trim_start(line);
    let whole: usize = line.as_bytes().len();
    let rest: usize = body.as_bytes().len();
    let indent: usize = if whole >= rest {
        whole - rest
    } else {
        0
    };
    let mut res = telegram_html::spaces_text(indent);
    res.push_str(body.substring_char(0, marker_len));
    proof {
        assert(body@.subrange(0, marker_len as int) =~= body@.take(marker_len as int));
    }
    res.push_str(reference);
    res.push_str("\n");
    let lead = continuation_indent(indent, marker_len);
    res.push_str(lead.as_str());
    res.push_str(description);
    res
}

/// The text up to the end of the first closing tag, and what follows it without leading
/// white space.
fn split_behind(content: &Vec<char>, tag: &str) -> (res: Option<(String, String)>)
    ensures
        match res {
            Some((head, tail)) => {
                &&& text::find_from(content@, tag@, 0) matches Some(close)
                &&& head@ == content@.take(close + tag@.len())
                &&& tail@ == text::trimmed_start(content@.skip(close + tag@.len()))
            },
            None => text::find_from(content@, tag@, 0) is None,
        },
{
    let wanted = text::to_chars(tag);
    match text::position_from(content, &wanted, 0) {
        Some(close) => {
            let end: usize = close + wanted.len();
            let head = text::string_between(content, 0, end);
            let tail = text::string_between(content, end, content.len());
            proof {
                assert(head@ =~= content@.take(end as int));
                assert(tail@ =~= content@.skip(end as int));
            }
            Some((head, text::trim_start(tail.as_str()).to_owned()))
        },
        None => None,
    }
}

/// The text of a list item behind its marker.
fn item_content(body: &str, marker_len: usize) -> (res: Vec<char>)
    requires
        marker_len <= body@.len(),
    ensures
        res@ == body@.skip(marker_len as int),
{
    let chars = text::to_chars(body);
    let content = text::string_between(&chars, marker_len, chars.len());
    proof {
        assert(content@ =~= body@.skip(marker_len as int));
    }
    text::to_chars(content.as_str())
}

/// A list item that begins with a reference to a file and goes on with a description, set
/// on two lines.
pub fn reflow_file_reference_bullet(line: &str) -> (res: Option<String>)
    requires
        has_whole_anchor(line@),
    ensures
        text::opt_view(res) == reflowed(line@),
{
    let body = text::trim_start(line);
    let marker_len = match bullet_marker_len(body) {
        Some(n) => n,
        None => return None,
    };
    let content = item_content(body, marker_len);
    if let Some((anchor, description)) = split_behind(&content, "</a>") {
        let reference = rewrite_anchor_reference_for_probe(anchor.as_str());
        if !description.as_str().is_empty() {
            return Some(
                set_on_two_lines(line, marker_len, reference.as_str(), description.as_str()),
            );
        }
    }
    if let Some((code, description)) = split_behind(&content, "</code>") {
        if !description.as_str().is_empty() {
            return Some(set_on_two_lines(line, marker_len, code.as_str(), description.as_str()));
        }
    }
    None
}

/// Whether the first anchor that ends in a list item also begins in it.
fn anchors_are_whole(line: &str) -> (res: bool)
    ensures
        res == has_whole_anchor(line@),
{
    let body = text::trim_start(line);
    let marker_len = match bullet_marker_len(body) {
        Some(n) => n,
        None => return true,
    };
    let content = item_content(body, marker_len);
    match split_behind(&content, "</a>") {
        Some((anchor, _)) => {
            let chars = text::to_chars(anchor.as_str());
            let bracket: Vec<char> = vec!['>'];
            let close_tag = text::to_chars("</a>");
            proof {
                assert(bracket@ =~= seq!['>']);
            }
            match (
                text::position_from(&chars, &bracket, 0),
                text::last_position(&chars, &close_tag),
            ) {
                (Some(open_end), Some(close)) => open_end < close,
                _ => true,
            }
        },
        None => true,
    }
}

/// The document after the layout is adjusted.
pub fn apply_probe_layout_adjustments(html: &str) -> (res: String)
    requires
        has_whole_anchors(html@),
    ensures
        res@ == probe_layout(html@),
{
    let lines = text::lines(html);
    let ghost all = text::lines_of(html@);
    let ghost wanted = Seq::new(all.len(), |i: int| probe_line(all, i));
    let mut adjusted: Vec<String> = Vec::new();
    let mut i: usize = 0;
    while i < lines.len()
        invariant
            i <= lines@.len(),
            text::views(lines@) == all,
            all == text::lines_of(html@),
            has_whole_anchors(html@),
            wanted == Seq::new(all.len(), |i: int| probe_line(all, i)),
            text::views(adjusted@) =~= wanted.take(i as int),
        decreases lines@.len() - i,
    {
        proof {
            assert(all[i as int] == lines@[i as int]@);
        }
        let next = match telegram_html::next_filled_line(&lines, i + 1) {
            Some(k) => Some(lines[k].as_str()),
            None => None,
        };
        let line = lines[i].as_str();
        let shown = if telegram_html::should_bold_section_label(line, next) {
            let mut label = "<b>".to_owned();
            label.push_str(text::trim(line));
            label.push_str("</b>");
            label
        } else {
            match reflow_file_reference_bullet(line) {
                Some(two) => two,
                None => line.to_owned(),
            }
        };
        let ghost before = adjusted@;
        adjusted.push(shown);
        proof {
            assert(text::views(adjusted@) =~= text::views(before).push(adjusted@.last()@));
            assert(wanted.take(i + 1) =~= wanted.take(i as int).push(wanted[i as int]));
        }
        i += 1;
    }
    proof {
        assert(text::views(lines@).len() == lines@.len());
        assert(wanted.take(i as int) =~= wanted);
    }
    text::join(&adjusted, "\n")
}

/// Whether every line that is reflowed has its anchors whole.
pub fn lines_have_whole_anchors(html: &str) -> (res: bool)
    ensures
        res == has_whole_anchors(html@),
{
    let lines = text::lines(html);
    let ghost all = text::lines_of(html@);
    let mut i: usize = 0;
    while i < lines.len()
        invariant
            i <= lines@.len(),
            text::views(lines@) == all,
            all == text::lines_of(html@),
            forall|k: int|
                0 <= k < i && !telegram_html::is_section_label(
                    #[trigger] all[k],
                    telegram_html::next_filled(all, k + 1),
                ) ==> has_whole_anchor(all[k]),
        decreases lines@.len() - i,
    {
        proof {
            assert(all[i as int] == lines@[i as int]@);
        }
        let next = match telegram_html::next_filled_line(&lines, i + 1) {
            Some(k) => Some(lines[k].as_str()),
            None => None,
        };
        let line = lines[i].as_str();
        if !telegram_html::should_bold_section_label(line, next) && !anchors_are_whole(line) {
            return false;
        }
        i += 1;
    }
    proof {
        assert(text::views(lines@).len() == lines@.len());
    }
    true
}

/// The HTML of the events before its layout is adjusted.
pub fn render_probe_events(events: &Vec<Event<'_>>) -> (res: String)
    ensures
        res@ == probe_html(markdown::models(events@)),
{
    let mut renderer = ProbeHtmlRenderer::new();
    let ghost all = markdown::models(events@);
    let mut i: usize = 0;
    proof {
        assert(all.take(0) =~= Seq::empty());
    }
    while i < events.len()
        invariant
            i <= events@.len(),
            all == markdown::models(events@),
            renderer@ == probe_document(all.take(i as int)),
        decreases events@.len() - i,
    {
        proof {
            let next = all.take(i + 1);
            assert(next.drop_last() =~= all.take(i as int));
            assert(next.last() == markdown::event_model(events@[i as int]));
        }
        renderer.handle_event(&events[i]);
        i += 1;
    }
    proof {
        assert(all.take(i as int) =~= all);
    }
    renderer.finish()
}

/// Renders a Markdown document to the HTML that Telegram accepts.
pub fn render_markdown_to_telegram_html(markdown: &str) -> (res: String)
    requires
        has_whole_anchors(probe_html(markdown::markdown_events(markdown@))),
    ensures
        res@ == probe_layout(probe_html(markdown::markdown_events(markdown@))),
{
    let events = markdown::parse_markdown(markdown);
    let html = render_probe_events(&events);
    apply_probe_layout_adjustments(html.as_str())
}

/// Renders a Markdown document, unless a line to be reflowed holds only the end of an
/// anchor.
pub fn checked_render_markdown_to_telegram_html(markdown: &str) -> (res: Option<String>)
    ensures
        match res {
            Some(html) => has_whole_anchors(probe_html(markdown::markdown_events(markdown@)))
                && html@ == probe_layout(probe_html(markdown::markdown_events(markdown@))),
            None => !has_whole_anchors(probe_html(markdown::markdown_events(markdown@))),
        },
{
    let events = markdown::parse_markdown(markdown);
    let html = render_probe_events(&events);
    if lines_have_whole_anchors(html.as_str()) {
        Some(render_markdown_to_telegram_html(markdown))
    } else {
        None
    }
}

/// The document of a probe has known tags only.
proof fn lemma_document_tags(events: Seq<EventModel>)
    ensures
        telegram_html::has_only_tags(probe_document(events).html),
    decreases events.len(),
{
    telegram_html::lemma_fixed_tags();
    if events.len() > 0 {
        let before = probe_document(events.drop_last());
        let event = events.last();
        lemma_document_tags(events.drop_last());
        telegram_html::lemma_broken_tags(before.html);
        telegram_html::lemma_rendered_tags(before, event);
        if let EventModel::Code(code) = event {
            let html = telegram_html::escaped(code);
            telegram_html::lemma_escaped_tags(code);
            telegram_html::lemma_tags_appended(before.html, "<code>"@);
            telegram_html::lemma_tags_appended(before.html + "<code>"@, html);
            telegram_html::lemma_tags_appended(before.html + "<code>"@ + html, "</code>"@);
        }
    }
}

/// The last position of a pattern is one where it stands.
proof fn lemma_find_back(s: Seq<char>, pattern: Seq<char>, from: int)
    ensures
        text::find_back(s, pattern, from) matches Some(at) ==> text::occurs_at(s, pattern, at),
    decreases from + 1,
{
    if from >= 0 && !text::occurs_at(s, pattern, from) {
        lemma_find_back(s, pattern, from - 1);
    }
}

/// An anchor as it is shown has known tags only.
proof fn lemma_anchor_tags(anchor: Seq<char>)
    requires
        telegram_html::has_only_tags(anchor),
        is_anchor(anchor),
    ensures
        telegram_html::has_only_tags(shown_anchor(anchor)),
{
    telegram_html::lemma_fixed_tags();
    text::lemma_find_from(anchor, seq!['>'], 0);
    lemma_find_back(anchor, "</a>"@, anchor.len() as int);
    if let (Some(open_end), Some(close)) = (
        text::find_from(anchor, seq!['>'], 0),
        text::find_back(anchor, "</a>"@, anchor.len() as int),
    ) {
        reveal_strlit("</a>");
        assert(anchor.subrange(close, close + 4)[0] == '<');
        assert(anchor[close] == '<');
        telegram_html::lemma_tags_cut(anchor, close);
        telegram_html::lemma_tags_skipped(anchor.take(close), open_end + 1);
        let label = anchor.subrange(open_end + 1, close);
        assert(anchor.take(close).skip(open_end + 1) =~= label);
        telegram_html::lemma_tags_appended("<code>"@, label);
        telegram_html::lemma_tags_appended("<code>"@ + label, "</code>"@);
    }
}

/// The digits at the beginning of a text are digits.
proof fn lemma_leading_digits(s: Seq<char>)
    ensures
        telegram_html::leading_digits(s) <= s.len(),
        forall|k: int|
            0 <= k < telegram_html::leading_digits(s) ==> '0' <= #[trigger] s[k] <= '9',
    decreases s.len(),
{
    if s.len() > 0 && '0' <= s[0] <= '9' {
        lemma_leading_digits(s.drop_first());
        assert forall|k: int| 0 <= k < telegram_html::leading_digits(s) implies '0'
            <= #[trigger] s[k] <= '9' by {
            if k > 0 {
                assert(s[k] == s.drop_first()[k - 1]);
            }
        }
    }
}

/// A marker has no tag.
proof fn lemma_marker_tags(body: Seq<char>, marker_len: nat)
    requires
        bullet_marker(body) == Some(marker_len),
    ensures
        marker_len <= body.len(),
        telegram_html::has_only_tags(body.take(marker_len as int)),
{
    let marker = body.take(marker_len as int);
    lemma_leading_digits(body);
    if !telegram_html::has_dash_marker(body) {
        let digits = telegram_html::leading_digits(body) as int;
        let tail = body.subrange(digits, digits + 2);
        assert(tail[0] == '.' && tail[1] == ' ');
        assert(body[digits] == '.' && body[digits + 1] == ' ');
    }
    assert forall|k: int| 0 <= k < marker.len() implies #[trigger] marker[k] != '<' by {
        assert(marker[k] == body[k]);
    }
}

/// A list item on two lines has known tags only.
proof fn lemma_two_lines_tags(
    line: Seq<char>,
    marker_len: nat,
    reference: Seq<char>,
    description: Seq<char>,
)
    requires
        bullet_marker(text::trimmed_start(line)) == Some(marker_len),
        telegram_html::has_only_tags(reference),
        telegram_html::has_only_tags(description),
    ensures
        telegram_html::has_only_tags(two_lines(line, marker_len, reference, description)),
{
    telegram_html::lemma_fixed_tags();
    let body = text::trimmed_start(line);
    let indent = indentation(line);
    let marker = body.take(marker_len as int);
    let lead = continuation(indent, marker_len);
    telegram_html::lemma_plain_tags(indent);
    lemma_marker_tags(body, marker_len);
    assert(telegram_html::has_only_tags(lead));
    let a = telegram_html::spaces(indent);
    telegram_html::lemma_tags_appended(a, marker);
    telegram_html::lemma_tags_appended(a + marker, reference);
    telegram_html::lemma_tags_appended(a + marker + reference, "\n"@);
    telegram_html::lemma_tags_appended(a + marker + reference + "\n"@, lead);
    telegram_html::lemma_tags_appended(a + marker + reference + "\n"@ + lead, description);
}

/// A reflowed list item has known tags only.
proof fn lemma_reflowed_tags(line: Seq<char>)
    requires
        telegram_html::has_only_tags(line),
        has_whole_anchor(line),
    ensures
        reflowed(line) matches Some(two) ==> telegram_html::has_only_tags(two),
{
    let body = text::trimmed_start(line);
    telegram_html::lemma_trimmed_tags(line);
    if let Some(marker_len) = bullet_marker(body) {
        lemma_marker_tags(body, marker_len);
        let content = body.skip(marker_len as int);
        telegram_html::lemma_tags_skipped(body, marker_len as int);
        reveal_strlit("</a>");
        reveal_strlit("</code>");
        text::lemma_find_from(content, "</a>"@, 0);
        text::lemma_find_from(content, "</code>"@, 0);
        if let Some(close) = text::find_from(content, "</a>"@, 0) {
            let end = close + 4;
            assert(content.subrange(close, end)[3] == '>');
            assert(content[end - 1] == '>');
            telegram_html::lemma_tags_cut(content, end);
            lemma_anchor_tags(content.take(end));
            telegram_html::lemma_tags_skipped(content, end);
            telegram_html::lemma_trimmed_tags(content.skip(end));
            lemma_two_lines_tags(
                line,
                marker_len,
                shown_anchor(content.take(end)),
                text::trimmed_start(content.skip(end)),
            );
        }
        if let Some(close) = text::find_from(content, "</code>"@, 0) {
            let end = close + 7;
            assert(content.subrange(close, end)[6] == '>');
            assert(content[end - 1] == '>');
            telegram_html::lemma_tags_cut(content, end);
            telegram_html::lemma_tags_skipped(content, end);
            telegram_html::lemma_trimmed_tags(content.skip(end));
            lemma_two_lines_tags(
                line,
                marker_len,
                content.take(end),
                text::trimmed_start(content.skip(end)),
            );
        }
    }
}

/// Whatever a document holds, its HTML has no tags but those that Telegram knows: raw HTML
/// in the document is shown, never interpreted.
pub proof fn law_probe_has_only_tags(events: Seq<EventModel>)
    requires
        has_whole_anchors(probe_html(events)),
    ensures
        telegram_html::has_only_tags(probe_layout(probe_html(events))),
{
    let html = probe_html(events);
    lemma_document_tags(events);
    telegram_html::lemma_trimmed_tags(probe_document(events).html);
    let lines = text::lines_of(html);
    let shown = Seq::new(lines.len(), |i: int| probe_line(lines, i));
    assert forall|k: int| 0 <= k < shown.len() implies telegram_html::has_only_tags(
        #[trigger] shown[k],
    ) by {
        telegram_html::lemma_line_tags(html, k);
        telegram_html::lemma_trimmed_tags(lines[k]);
        telegram_html::lemma_fixed_tags();
        let label = text::trimmed(lines[k]);
        telegram_html::lemma_tags_appended("<b>"@, label);
        telegram_html::lemma_tags_appended("<b>"@ + label, "</b>"@);
        if !telegram_html::is_section_label(lines[k], telegram_html::next_filled(lines, k + 1)) {
            lemma_reflowed_tags(lines[k]);
        }
    }
    telegram_html::lemma_joined_tags(shown);
}

/// Inline elements and code are marked by tags of their own, and what stands in them is escaped.
pub proof fn law_probes_mark_inline_elements(doc: DocumentModel, body: Seq<char>)
    ensures
        ({
            let opened = probe_step(doc, EventModel::Start(TagModel::Emphasis));
            let filled = probe_step(opened, EventModel::Text(body));
            probe_step(filled, EventModel::End(TagModel::Emphasis)).html == doc.html + "<i>"@
                + telegram_html::escaped(body) + "</i>"@
        }),
        ({
            let opened = probe_step(doc, EventModel::Start(TagModel::Strong));
            let filled = probe_step(opened, EventModel::Text(body));
            probe_step(filled, EventModel::End(TagModel::Strong)).html == doc.html + "<b>"@
                + telegram_html::escaped(body) + "</b>"@
        }),
        ({
            let opened = probe_step(doc, EventModel::Start(TagModel::Strikethrough));
            let filled = probe_step(opened, EventModel::Text(body));
            probe_step(filled, EventModel::End(TagModel::Strikethrough)).html == doc.html + "<s>"@
                + telegram_html::escaped(body) + "</s>"@
        }),
        probe_step(doc, EventModel::Code(body)).html == doc.html + "<code>"@
            + telegram_html::escaped(body) + "</code>"@,
{
}

/// A path on this machine begins with a slash, or with one or two dots and a slash.
pub proof fn law_local_paths_begin_with_a_slash(href: Seq<char>)
    ensures
        is_local_href(href) <==> (href.len() > 0 && href[0] == '/') || (href.len() > 1 && href[0]
            == '.' && href[1] == '/') || (href.len() > 2 && href[0] == '.' && href[1] == '.'
            && href[2] == '/'),
{
    reveal_strlit("/");
    reveal_strlit("./");
    reveal_strlit("../");
    if href.len() > 0 {
        assert(href.subrange(0, 1) =~= seq![href[0]]);
        assert(href.subrange(0, 1)[0] == href[0]);
        if href[0] == '/' {
            assert(href.subrange(0, 1) =~= "/"@);
        }
    }
    if href.len() > 1 {
        assert(href.subrange(0, 2)[0] == href[0] && href.subrange(0, 2)[1] == href[1]);
        if href[0] == '.' && href[1] == '/' {
            assert(href.subrange(0, 2) =~= "./"@);
        }
    }
    if href.len() > 2 {
        let head = href.subrange(0, 3);
        assert(head[0] == href[0] && head[1] == href[1] && head[2] == href[2]);
        if href[0] == '.' && href[1] == '.' && href[2] == '/' {
            assert(head =~= "../"@);
        }
    }
}

/// An item of a list that begins with code and says something behind it is shown on two lines: the
/// code stands behind the marker, and what is said about it below.
pub proof fn law_described_code_is_shown_on_two_lines(
    code: Seq<char>,
    description: Seq<char>,
    content: Seq<char>,
)
    requires
        content == code + seq![' '] + description,
        code.len() >= 7,
        text::occurs_at(code, "</code>"@, code.len() - 7),
        forall|i: int| 0 <= i < code.len() - 7 ==> !#[trigger] text::occurs_at(
            content,
            "</code>"@,
            i,
        ),
        forall|i: int| 0 <= i ==> !#[trigger] text::occurs_at(content, "</a>"@, i),
        description.len() > 0,
        !text::is_white(description[0]),
    ensures
        reflowed(seq!['-', ' '] + content) == Some(
            seq!['-', ' '] + code + "\n"@ + seq!['　'] + description,
        ),
{
    reveal_strlit("</code>");
    reveal_strlit("</a>");
    text::law_visible_characters_are_not_white('-');
    text::law_visible_characters_are_not_white(' ');
    let line = seq!['-', ' '] + content;
    let at: int = code.len() - 7;
    assert(line[0] == '-' && line[1] == ' ');
    assert(text::trimmed_start(line) == line);
    assert(line.skip(2) =~= content);
    assert(content.subrange(at, at + 7) =~= code.subrange(at, at + 7));
    assert(text::occurs_at(content, "</code>"@, at));
    text::law_the_first_position_is_found(content, "</code>"@, at);
    text::lemma_find_from(content, "</a>"@, 0);
    let behind = content.skip(at + 7);
    assert(behind =~= seq![' '] + description);
    assert(behind.drop_first() =~= description);
    assert(text::trimmed_start(description) == description);
    assert(text::trimmed_start(behind) == description);
    assert(content.take(at + 7) =~= code);
    assert(telegram_html::spaces(0) =~= Seq::<char>::empty());
    assert(line.take(2) =~= seq!['-', ' ']);
    assert(reflowed(line)->0 =~= seq!['-', ' '] + code + "\n"@ + seq!['　'] + description);
}

/// A link to a local file is shown as code, by its label, if that is one word; every other link stays
/// a link.
pub proof fn law_local_links_are_shown_as_code(href: Seq<char>, label: Seq<char>)
    requires
        forall|i: int| 0 <= i < href.len() ==> #[trigger] href[i] != '"' && href[i] != '>',
    ensures
        ({
            let anchor = "<a href=\""@ + href + "\">"@ + label + "</a>"@;
            &&& is_local_href(href) && !label.contains(' ') ==> shown_anchor(anchor) == "<code>"@
                + label + "</code>"@
            &&& !is_local_href(href) || label.contains(' ') ==> shown_anchor(anchor) == anchor
        }),
{
    reveal_strlit("<a href=\"");
    reveal_strlit("\">");
    reveal_strlit("</a>");
    reveal_strlit("href=\"");
    let anchor = "<a href=\""@ + href + "\">"@ + label + "</a>"@;
    let open: int = 10int + href.len();
    let close: int = anchor.len() - 4;
    assert(anchor.subrange(open, open + 1) =~= seq!['>']);
    let mark = seq!['>'];
    assert forall|i: int| 0 <= i < open implies !#[trigger] text::occurs_at(anchor, mark, i) by {
        if text::occurs_at(anchor, mark, i) {
            assert(anchor.subrange(i, i + 1)[0] == anchor[i]);
            if 9 <= i < 9 + href.len() {
                assert(anchor[i] == href[i - 9]);
            }
        }
    }
    text::law_the_first_position_is_found(anchor, mark, open);
    assert(anchor.subrange(close, close + 4) =~= "</a>"@);
    assert(text::occurs_at(anchor, "</a>"@, close));
    text::law_the_last_position_is_found(anchor, "</a>"@, anchor.len() as int);
    assert(text::find_back(anchor, "</a>"@, anchor.len() as int) == Some(close));
    assert(anchor.subrange(open + 1, close) =~= label);
    let tag = anchor.take(open + 1);
    assert(tag =~= "<a href=\""@ + href + "\">"@);
    assert(tag.subrange(3, 9) =~= "href=\""@);
    assert forall|i: int| 0 <= i < 3 implies !#[trigger] text::occurs_at(tag, "href=\""@, i) by {
        if text::occurs_at(tag, "href=\""@, i) {
            assert(tag.subrange(i, i + 6)[0] == tag[i]);
        }
    }
    text::law_the_first_position_is_found(tag, "href=\""@, 3);
    let rest = tag.skip(9);
    assert(rest =~= href + "\">"@);
    let end = href.len() as int;
    assert(rest.subrange(end, end + 1) =~= seq!['"']);
    let quote = seq!['"'];
    assert forall|i: int| 0 <= i < end implies !#[trigger] text::occurs_at(rest, quote, i) by {
        if text::occurs_at(rest, quote, i) {
            assert(rest.subrange(i, i + 1)[0] == rest[i]);
            assert(rest[i] == href[i]);
        }
    }
    text::law_the_first_position_is_found(rest, quote, end);
    assert(rest.take(end) =~= href);
}

/// Every line is kept in its place: a label of a section in bold, an item that is described on two
/// lines, and every other line as it is.
pub proof fn law_lines_are_laid_out_one_by_one(html: Seq<char>, i: int)
    requires
        0 <= i < text::lines_of(html).len(),
    ensures
        ({
            let lines = text::lines_of(html);
            let label = telegram_html::is_section_label(
                lines[i],
                telegram_html::next_filled(lines, i + 1),
            );
            let shown = if label {
                "<b>"@ + text::trimmed(lines[i]) + "</b>"@
            } else if reflowed(lines[i]) is Some {
                reflowed(lines[i])->0
            } else {
                lines[i]
            };
            text::contains(probe_layout(html), shown)
        }),
{
    let lines = text::lines_of(html);
    let shown = Seq::new(lines.len(), |k: int| probe_line(lines, k));
    text::law_joined_holds_every_part(shown, "\n"@, i);
    assert(shown[i] == probe_line(lines, i));
}

} // verus!
