//! The HTML subset that Telegram accepts: escaping, breaks, list items and section labels.
use pulldown_cmark::{CodeBlockKind, Event, Tag};
use vstd::prelude::*;
use vstd::string::*;

use crate::markdown;
use crate::markdown::{EventModel, TagModel};
use crate::text;

verus! {

broadcast use vstd::string::group_string_axioms;

/// A list that is open while a document is rendered.
#[derive(Debug, Clone, Copy)]
pub struct ListState {
    pub next_index: u64,
    pub ordered: bool,
}

/// What stands for a character in HTML text.
pub open spec fn escaped_char(c: char) -> Seq<char> {
    if c == '&' {
        "&amp;"@
    } else if c == '<' {
        "&lt;"@
    } else if c == '>' {
        "&gt;"@
    } else if c == '"' {
        "&quot;"@
    } else {
        seq![c]
    }
}

/// The text with every character escaped that means something in HTML.
pub open spec fn escaped(s: Seq<char>) -> Seq<char>
    decreases s.len(),
{
    if s.len() == 0 {
        s
    } else {
        escaped(s.drop_last()) + escaped_char(s.last())
    }
}

/// Whether the text ends with the character.
pub open spec fn ends_in(s: Seq<char>, c: char) -> bool {
    s.len() > 0 && s.last() == c
}

/// The text, with a line feed unless it ends with one.
pub open spec fn line_broken(html: Seq<char>) -> Seq<char> {
    if ends_in(html, '\n') {
        html
    } else {
        html.push('\n')
    }
}

/// The text, made to end with an empty line unless it is empty.
pub open spec fn block_broken(html: Seq<char>) -> Seq<char> {
    if html.len() == 0 {
        html
    } else if html.len() >= 2 && html.last() == '\n' && html[html.len() - 2] == '\n' {
        html
    } else if html.last() == '\n' {
        html.push('\n')
    } else {
        html.push('\n').push('\n')
    }
}

/// A run of spaces.
pub open spec fn spaces(n: nat) -> Seq<char> {
    Seq::new(n, |i: int| ' ')
}

/// A document under construction: its HTML, and the lists that are open, the innermost last.
pub struct DocumentModel {
    pub html: Seq<char>,
    pub lists: Seq<ListState>,
}

/// A list that begins with the given number, or an unordered one.
pub open spec fn opened_list(start: Option<u64>) -> ListState {
    match start {
        Some(first) => ListState { next_index: first, ordered: true },
        None => ListState { next_index: 1, ordered: false },
    }
}

/// The marker of the next item, and the open lists after it.
pub open spec fn item_opened(doc: DocumentModel) -> DocumentModel {
    let fresh = if doc.html.len() == 0 || ends_in(doc.html, '\n') {
        doc.html
    } else {
        doc.html.push('\n')
    };
    let depth = if doc.lists.len() == 0 {
        0
    } else {
        (doc.lists.len() - 1) as nat
    };
    let indented = fresh + spaces(2 * depth);
    if doc.lists.len() > 0 && doc.lists.last().ordered {
        let list = doc.lists.last();
        DocumentModel {
            html: indented + text::decimal(list.next_index as nat) + ". "@,
            lists: doc.lists.drop_last().push(
                ListState { next_index: list.next_index.wrapping_add(1), ordered: true },
            ),
        }
    } else {
        DocumentModel { html: indented + "- "@, lists: doc.lists }
    }
}

/// The HTML after the start of an element. Lists and elements without a counterpart leave
/// it as it is.
pub open spec fn element_opened(doc: DocumentModel, tag: TagModel) -> DocumentModel {
    match tag {
        TagModel::Paragraph => DocumentModel {
            html: if doc.lists.len() == 0 {
                block_broken(doc.html)
            } else {
                doc.html
            },
            lists: doc.lists,
        },
        TagModel::Heading => DocumentModel {
            html: block_broken(doc.html) + "<b>"@,
            lists: doc.lists,
        },
        TagModel::Emphasis => DocumentModel { html: doc.html + "<i>"@, lists: doc.lists },
        TagModel::Strong => DocumentModel { html: doc.html + "<b>"@, lists: doc.lists },
        TagModel::Strikethrough => DocumentModel { html: doc.html + "<s>"@, lists: doc.lists },
        TagModel::CodeBlock(language) => {
            let open = block_broken(doc.html) + "<pre><code>"@;
            DocumentModel {
                html: match language {
                    Some(name) if text::trimmed(name).len() > 0 => (open + escaped(text::trimmed(name))).push(
                        '\n',
                    ),
                    _ => open,
                },
                lists: doc.lists,
            }
        },
        TagModel::Item => item_opened(doc),
        TagModel::Link(url) => DocumentModel {
            html: doc.html + "<a href=\""@ + escaped(url) + "\">"@,
            lists: doc.lists,
        },
        TagModel::Image(url) => DocumentModel {
            html: doc.html + escaped("Image: "@ + url),
            lists: doc.lists,
        },
        _ => doc,
    }
}

/// The HTML after the end of an element.
pub open spec fn element_closed(doc: DocumentModel, tag: TagModel) -> DocumentModel {
    DocumentModel {
        html: match tag {
            TagModel::Paragraph => if doc.lists.len() == 0 {
                block_broken(doc.html)
            } else {
                line_broken(doc.html)
            },
            TagModel::Heading => block_broken(doc.html + "</b>"@),
            TagModel::Emphasis => doc.html + "</i>"@,
            TagModel::Strong => doc.html + "</b>"@,
            TagModel::Strikethrough => doc.html + "</s>"@,
            TagModel::CodeBlock(_) => block_broken(doc.html + "</code></pre>"@),
            TagModel::Item => line_broken(doc.html),
            TagModel::Link(_) => doc.html + "</a>"@,
            _ => doc.html,
        },
        lists: doc.lists,
    }
}

/// The HTML after an event. Inline code and the lists themselves are left to the caller.
pub open spec fn rendered(doc: DocumentModel, event: EventModel) -> DocumentModel {
    match event {
        EventModel::Start(tag) => element_opened(doc, tag),
        EventModel::End(tag) => element_closed(doc, tag),
        EventModel::Text(text) => DocumentModel { html: doc.html + escaped(text), lists: doc.lists },
        EventModel::Html(text) => DocumentModel { html: doc.html + escaped(text), lists: doc.lists },
        EventModel::Code(_) => doc,
        EventModel::SoftBreak => DocumentModel { html: line_broken(doc.html), lists: doc.lists },
        EventModel::HardBreak => DocumentModel { html: line_broken(doc.html), lists: doc.lists },
        EventModel::Rule => DocumentModel {
            html: block_broken(block_broken(doc.html) + "----"@),
            lists: doc.lists,
        },
        EventModel::FootnoteReference(label) => DocumentModel {
            html: doc.html + escaped("["@ + label + "]"@),
            lists: doc.lists,
        },
        EventModel::TaskListMarker(checked) => DocumentModel {
            html: doc.html + (if checked {
                "[x] "@
            } else {
                "[ ] "@
            }),
            lists: doc.lists,
        },
    }
}

/// The text with every character escaped that means something in HTML.
pub fn escape_html(text: &str) -> (res: String)
    ensures
        res@ == escaped(text@),
{
    let chars = text::to_chars(text);
    let mut res = String::new();
    let mut i: usize = 0;
    proof {
        assert(text@.take(0) =~= Seq::empty());
    }
    while i < chars.len()
        invariant
            i <= chars@.len(),
            chars@ == text@,
            res@ == escaped(text@.take(i as int)),
        decreases chars@.len() - i,
    {
        let c = chars[i];
        proof {
            let next = text@.take(i + 1);
            assert(next.drop_last() =~= text@.take(i as int));
            assert(next.last() == c);
        }
        let ghost before = res@;
        if c == '&' {
            res.push_str("&amp;");
        } else if c == '<' {
            res.push_str("&lt;");
        } else if c == '>' {
            res.push_str("&gt;");
        } else if c == '"' {
            res.push_str("&quot;");
        } else {
            res.push(c);
            proof {
                assert(before.push(c) =~= before + seq![c]);
            }
        }
        i += 1;
    }
    proof {
        assert(text@.take(i as int) =~= text@);
    }
    res
}

/// A run of spaces.
pub fn spaces_text(n: usize) -> (res: String)
    ensures
        res@ == spaces(n as nat),
{
    let mut res = String::new();
    let mut i: usize = 0;
    while i < n
        invariant
            i <= n,
            res@ =~= spaces(i as nat),
        decreases n - i,
    {
        res.push(' ');
        i += 1;
    }
    res
}

/// A document under construction.
pub struct HtmlDocument {
    pub html: String,
    pub list_stack: Vec<ListState>,
}

impl View for HtmlDocument {
    type V = DocumentModel;

    open spec fn view(&self) -> DocumentModel {
        DocumentModel { html: self.html@, lists: self.list_stack@ }
    }
}

impl HtmlDocument {
    /// The empty document.
    pub fn new() -> (res: Self)
        ensures
            res@ == (DocumentModel { html: Seq::empty(), lists: Seq::empty() }),
    {
        HtmlDocument { html: String::new(), list_stack: Vec::new() }
    }

    /// Appends a text as it is.
    pub fn push_html(&mut self, html: &str)
        ensures
            final(self)@ == (DocumentModel { html: old(self)@.html + html@, lists: old(self)@.lists }),
    {
        self.html.push_str(html);
    }

    /// Appends a text, escaped.
    pub fn push_text(&mut self, text: &str)
        ensures
            final(self)@ == (DocumentModel {
                html: old(self)@.html + escaped(text@),
                lists: old(self)@.lists,
            }),
    {
        let html = escape_html(text);
        self.html.push_str(html.as_str());
    }

    /// Ends the current line.
    pub fn push_line_break(&mut self)
        ensures
            final(self)@ == (DocumentModel {
                html: line_broken(old(self)@.html),
                lists: old(self)@.lists,
            }),
    {
        let chars = text::to_chars(self.html.as_str());
        if chars.len() == 0 || chars[chars.len() - 1] != '\n' {
            self.html.push('\n');
        }
    }

    /// Ends the current block.
    pub fn push_block_break(&mut self)
        ensures
            final(self)@ == (DocumentModel {
                html: block_broken(old(self)@.html),
                lists: old(self)@.lists,
            }),
    {
        let chars = text::to_chars(self.html.as_str());
        let n: usize = chars.len();
        if n == 0 {
            return;
        }
        if n >= 2 && chars[n - 1] == '\n' && chars[n - 2] == '\n' {
            return;
        }
        if chars[n - 1] != '\n' {
            self.html.push('\n');
        }
        self.html.push('\n');
    }

    /// Begins a list item: indentation, then its number or a dash.
    pub fn push_item(&mut self)
        ensures
            final(self)@ == item_opened(old(self)@),
    {
        let chars = text::to_chars(self.html.as_str());
        if chars.len() > 0 && chars[chars.len() - 1] != '\n' {
            self.html.push('\n');
        }
        let ghost fresh = self.html@;
        let mut level: usize = 1;
        proof {
            assert(fresh + spaces(0) =~= fresh);
        }
        while level < self.list_stack.len()
            invariant
                level >= 1,
                self.list_stack@ == old(self).list_stack@,
                level <= self.list_stack@.len() || level == 1,
                self.html@ == fresh + spaces((2 * (level - 1)) as nat),
            decreases self.list_stack@.len() - level,
        {
            let ghost before = self.html@;
            self.html.push(' ');
            self.html.push(' ');
            proof {
                assert(before.push(' ').push(' ') =~= fresh + spaces((2 * level) as nat));
            }
            level += 1;
        }
        match self.list_stack.pop() {
            Some(list) => {
                proof {
                    assert(self.list_stack@.push(list) =~= old(self).list_stack@);
                }
                if list.ordered {
                    let number = text::decimal_text(list.next_index);
                    self.html.push_str(number.as_str());
                    self.html.push_str(". ");
                    self.list_stack.push(
                        ListState { next_index: list.next_index.wrapping_add(1), ordered: true },
                    );
                } else {
                    self.html.push_str("- ");
                    self.list_stack.push(list);
                }
            },
            None => {
                self.html.push_str("- ");
            },
        }
    }

    /// Renders the start of an element.
    fn push_element_start(&mut self, tag: &Tag<'_>)
        ensures
            final(self)@ == element_opened(old(self)@, markdown::tag_model(*tag)),
    {
        match tag {
            Tag::Paragraph => {
                if self.list_stack.len() == 0 {
                    self.push_block_break();
                }
            },
            Tag::Heading(_, _, _) => {
                self.push_block_break();
                self.push_html("<b>");
            },
            Tag::Emphasis => self.push_html("<i>"),
            Tag::Strong => self.push_html("<b>"),
            Tag::Strikethrough => self.push_html("<s>"),
            Tag::CodeBlock(kind) => {
                self.push_block_break();
                self.push_html("<pre><code>");
                match kind {
                    CodeBlockKind::Fenced(language) => {
                        let language = markdown::cow_string(language);
                        let name = text::trim(language.as_str());
                        if !name.is_empty() {
                            self.push_text(name);
                            self.html.push('\n');
                        }
                    },
                    CodeBlockKind::Indented => {},
                }
            },
            Tag::Item => self.push_item(),
            Tag::Link(_, url, _) => {
                self.push_html("<a href=\"");
                let url = markdown::cow_string(url);
                self.push_text(url.as_str());
                self.push_html("\">");
            },
            Tag::Image(_, url, _) => {
                let mut label = "Image: ".to_owned();
                let url = markdown::cow_string(url);
                label.push_str(url.as_str());
                self.push_text(label.as_str());
            },
            _ => {},
        }
    }

    /// Renders the end of an element.
    fn push_element_end(&mut self, tag: &Tag<'_>)
        ensures
            final(self)@ == element_closed(old(self)@, markdown::tag_model(*tag)),
    {
        match tag {
            Tag::Paragraph => {
                if self.list_stack.len() == 0 {
                    self.push_block_break();
                } else {
                    self.push_line_break();
                }
            },
            Tag::Heading(_, _, _) => {
                self.push_html("</b>");
                self.push_block_break();
            },
            Tag::Emphasis => self.push_html("</i>"),
            Tag::Strong => self.push_html("</b>"),
            Tag::Strikethrough => self.push_html("</s>"),
            Tag::CodeBlock(_) => {
                self.push_html("</code></pre>");
                self.push_block_break();
            },
            Tag::Item => self.push_line_break(),
            Tag::Link(_, _, _) => self.push_html("</a>"),
            _ => {},
        }
    }

    /// Renders an event. Inline code and the lists themselves are left to the caller.
    pub fn push_event(&mut self, event: &Event<'_>)
        ensures
            final(self)@ == rendered(old(self)@, markdown::event_model(*event)),
    {
        match event {
            Event::Start(tag) => self.push_element_start(tag),
            Event::End(tag) => self.push_element_end(tag),
            Event::Text(text) => {
                let text = markdown::cow_string(text);
                self.push_text(text.as_str());
            },
            Event::Html(text) => {
                let text = markdown::cow_string(text);
                self.push_text(text.as_str());
            },
            Event::Code(_) => {},
            Event::SoftBreak => self.push_line_break(),
            Event::HardBreak => self.push_line_break(),
            Event::Rule => {
                self.push_block_break();
                self.push_html("----");
                self.push_block_break();
            },
            Event::FootnoteReference(label) => {
                let label = markdown::cow_string(label);
                let mut shown = "[".to_owned();
                shown.push_str(label.as_str());
                shown.push_str("]");
                self.push_text(shown.as_str());
            },
            Event::TaskListMarker(checked) => {
                if *checked {
                    self.push_html("[x] ");
                } else {
                    self.push_html("[ ] ");
                }
            },
        }
    }
}

/// The number of decimal digits at the beginning of the text.
pub open spec fn leading_digits(s: Seq<char>) -> nat
    decreases s.len(),
{
    if s.len() > 0 && '0' <= s[0] <= '9' {
        leading_digits(s.drop_first()) + 1
    } else {
        0
    }
}

/// The length of an ordered list marker, digits and a dot and a space, at the beginning of
/// the text.
pub open spec fn ordered_marker(s: Seq<char>) -> Option<nat> {
    let digits = leading_digits(s);
    if digits > 0 && text::occurs_at(s, seq!['.', ' '], digits as int) {
        Some(digits + 2)
    } else {
        None
    }
}

/// Whether the text begins with the marker of an unordered item.
pub open spec fn has_dash_marker(s: Seq<char>) -> bool {
    s.len() >= 2 && (s[0] == '-' || s[0] == '*') && s[1] == ' '
}

/// Whether a line is a list item.
pub open spec fn is_bullet_line(line: Seq<char>) -> bool {
    let body = text::trimmed_start(line);
    has_dash_marker(body) || ordered_marker(body) is Some
}

/// Whether a line is the label of a section: short, ended by a colon, and with a list item
/// as the next line that is not blank.
pub open spec fn is_section_label(line: Seq<char>, next: Option<Seq<char>>) -> bool {
    let label = text::trimmed(line);
    &&& 0 < label.len()
    &&& text::byte_len(label) <= 40
    &&& label.last() == ':' || label.last() == '：'
    &&& next matches Some(following) && is_bullet_line(following)
}

/// The first line at or after `from` that is not blank.
pub open spec fn next_filled(lines: Seq<Seq<char>>, from: int) -> Option<Seq<char>>
    decreases lines.len() - from,
{
    if from < 0 || from >= lines.len() {
        None
    } else if !text::is_blank(lines[from]) {
        Some(lines[from])
    } else {
        next_filled(lines, from + 1)
    }
}

/// The length of an ordered list marker at the beginning of the text, in characters.
pub fn ordered_marker_len(s: &str) -> (res: Option<usize>)
    ensures
        match res {
            Some(n) => ordered_marker(s@) == Some(n as nat) && n <= s@.len(),
            None => ordered_marker(s@) is None,
        },
{
    let chars = text::to_chars(s);
    let mut n: usize = 0;
    proof {
        assert(s@.skip(0) =~= s@);
    }
    while n < chars.len() && '0' <= chars[n] && chars[n] <= '9'
        invariant
            n <= chars@.len(),
            chars@ == s@,
            leading_digits(s@) == n + leading_digits(s@.skip(n as int)),
        decreases chars@.len() - n,
    {
        proof {
            assert(s@.skip(n as int).drop_first() =~= s@.skip(n + 1));
        }
        n += 1;
    }
    proof {
        assert(leading_digits(s@.skip(n as int)) == 0);
        if n + 2 <= s@.len() {
            let window = s@.subrange(n as int, n + 2);
            assert(window =~= seq![s@[n as int], s@[n + 1]]);
            assert(window == seq!['.', ' '] ==> window[0] == '.' && window[1] == ' ');
        }
    }
    if n > 0 && chars.len() - n >= 2 && chars[n] == '.' && chars[n + 1] == ' ' {
        Some(n + 2)
    } else {
        None
    }
}

/// Whether a line is a list item.
pub fn looks_like_bullet_line(line: &str) -> (res: bool)
    ensures
        res == is_bullet_line(line@),
{
    let body = text::trim_start(line);
    starts_with_dash_marker(body) || ordered_marker_len(body).is_some()
}

/// Whether the text begins with the marker of an unordered item.
pub fn starts_with_dash_marker(s: &str) -> (res: bool)
    ensures
        res == has_dash_marker(s@),
{
    let chars = text::to_chars(s);
    chars.len() >= 2 && (chars[0] == '-' || chars[0] == '*') && chars[1] == ' '
}

/// Whether a line is the label of a section.
pub fn should_bold_section_label(line: &str, next_non_empty: Option<&str>) -> (res: bool)
    ensures
        res == is_section_label(line@, text::opt_str_view(next_non_empty)),
{
    let label = text::trim(line);
    if label.is_empty() || label.as_bytes().len() > 40 {
        return false;
    }
    let chars = text::to_chars(label);
    let last = chars[chars.len() - 1];
    if last != ':' && last != '：' {
        return false;
    }
    match next_non_empty {
        Some(next) => looks_like_bullet_line(next),
        None => false,
    }
}

/// The position of the first line at or after `from` that is not blank.
pub fn next_filled_line(lines: &Vec<String>, from: usize) -> (res: Option<usize>)
    ensures
        match res {
            Some(i) => i < lines@.len() && next_filled(text::views(lines@), from as int) == Some(
                lines@[i as int]@,
            ),
            None => next_filled(text::views(lines@), from as int) is None,
        },
{
    let mut i: usize = from;
    while i < lines.len()
        invariant
            from <= i,
            next_filled(text::views(lines@), from as int) == next_filled(
                text::views(lines@),
                i as int,
            ),
        decreases lines@.len() - i,
    {
        if !text::trim(lines[i].as_str()).is_empty() {
            return Some(i);
        }
        i += 1;
    }
    None
}

/// Whether one of the tags that Telegram knows stands at a position.
pub open spec fn tag_at(s: Seq<char>, at: int) -> bool {
    ||| text::occurs_at(s, "<b>"@, at)
    ||| text::occurs_at(s, "</b>"@, at)
    ||| text::occurs_at(s, "<i>"@, at)
    ||| text::occurs_at(s, "</i>"@, at)
    ||| text::occurs_at(s, "<s>"@, at)
    ||| text::occurs_at(s, "</s>"@, at)
    ||| text::occurs_at(s, "<code>"@, at)
    ||| text::occurs_at(s, "</code>"@, at)
    ||| text::occurs_at(s, "<pre>"@, at)
    ||| text::occurs_at(s, "</pre>"@, at)
    ||| text::occurs_at(s, "<a href=\""@, at)
    ||| text::occurs_at(s, "</a>"@, at)
}

/// Whether every angle bracket that opens begins a tag that Telegram knows.
pub open spec fn has_only_tags(s: Seq<char>) -> bool {
    forall|i: int| 0 <= i < s.len() && #[trigger] s[i] == '<' ==> tag_at(s, i)
}

/// Where a known tag stands, its last character is known.
spec fn tag_end(s: Seq<char>, at: int) -> int {
    if text::occurs_at(s, "<b>"@, at) || text::occurs_at(s, "<i>"@, at) || text::occurs_at(
        s,
        "<s>"@,
        at,
    ) {
        at + 2
    } else if text::occurs_at(s, "</b>"@, at) || text::occurs_at(s, "</i>"@, at) || text::occurs_at(
        s,
        "</s>"@,
        at,
    ) || text::occurs_at(s, "</a>"@, at) {
        at + 3
    } else if text::occurs_at(s, "<pre>"@, at) {
        at + 4
    } else if text::occurs_at(s, "<code>"@, at) || text::occurs_at(s, "</pre>"@, at) {
        at + 5
    } else if text::occurs_at(s, "</code>"@, at) {
        at + 6
    } else {
        at + 8
    }
}

/// A known tag is made of an opening bracket, then neither a bracket that opens nor a line
/// break, and at its end, and only there, a bracket that closes or a quotation mark.
proof fn lemma_tag_shape(s: Seq<char>, at: int)
    requires
        tag_at(s, at),
    ensures
        0 <= at < tag_end(s, at) < s.len(),
        s[at] == '<',
        forall|k: int|
            at < k < tag_end(s, at) ==> #[trigger] s[k] != '<' && s[k] != '\n' && s[k] != '\r' && s[k]
                != '>',
        s[tag_end(s, at)] == '>' || s[tag_end(s, at)] == '"',
{
    reveal_strlit("<b>");
    reveal_strlit("</b>");
    reveal_strlit("<i>");
    reveal_strlit("</i>");
    reveal_strlit("<s>");
    reveal_strlit("</s>");
    reveal_strlit("<code>");
    reveal_strlit("</code>");
    reveal_strlit("<pre>");
    reveal_strlit("</pre>");
    reveal_strlit("<a href=\"");
    reveal_strlit("</a>");
    let end = tag_end(s, at);
    let tag = s.subrange(at, end + 1);
    assert(tag == "<b>"@ || tag == "</b>"@ || tag == "<i>"@ || tag == "</i>"@ || tag == "<s>"@
        || tag == "</s>"@ || tag == "<code>"@ || tag == "</code>"@ || tag == "<pre>"@ || tag
        == "</pre>"@ || tag == "<a href=\""@ || tag == "</a>"@);
    assert(s[at] == tag[0]);
    assert(s[end] == tag[end - at]);
    assert forall|k: int| at < k < end implies #[trigger] s[k] != '<' && s[k] != '\n' && s[k]
        != '\r' && s[k] != '>' by {
        assert(s[k] == tag[k - at]);
    }
}

/// A known tag stands in every text with the same characters up to the end of the tag.
proof fn lemma_tag_moved(a: Seq<char>, b: Seq<char>, at: int, to: int)
    requires
        tag_at(a, at),
        0 <= to,
        to + (tag_end(a, at) - at) < b.len(),
        a.subrange(at, tag_end(a, at) + 1) == b.subrange(to, to + (tag_end(a, at) - at) + 1),
    ensures
        tag_at(b, to),
{
    reveal_strlit("<b>");
    reveal_strlit("</b>");
    reveal_strlit("<i>");
    reveal_strlit("</i>");
    reveal_strlit("<s>");
    reveal_strlit("</s>");
    reveal_strlit("<code>");
    reveal_strlit("</code>");
    reveal_strlit("<pre>");
    reveal_strlit("</pre>");
    reveal_strlit("<a href=\"");
    reveal_strlit("</a>");
}

/// Two texts with known tags only, one after the other, have known tags only.
pub proof fn lemma_tags_appended(a: Seq<char>, b: Seq<char>)
    requires
        has_only_tags(a),
        has_only_tags(b),
    ensures
        has_only_tags(a + b),
{
    let s = a + b;
    assert forall|i: int| 0 <= i < s.len() && #[trigger] s[i] == '<' implies tag_at(s, i) by {
        if i < a.len() {
            assert(a[i] == '<');
            lemma_tag_shape(a, i);
            let end = tag_end(a, i);
            assert(a.subrange(i, end + 1) =~= s.subrange(i, end + 1));
            lemma_tag_moved(a, s, i, i);
        } else {
            assert(b[i - a.len()] == '<');
            lemma_tag_shape(b, i - a.len());
            let end = tag_end(b, i - a.len());
            assert(b.subrange(i - a.len(), end + 1) =~= s.subrange(i, a.len() + end + 1));
            lemma_tag_moved(b, s, i - a.len(), i);
        }
    }
}

/// What follows in a text with known tags only has known tags only.
pub proof fn lemma_tags_skipped(s: Seq<char>, from: int)
    requires
        has_only_tags(s),
        0 <= from <= s.len(),
    ensures
        has_only_tags(s.skip(from)),
{
    let rest = s.skip(from);
    assert forall|i: int| 0 <= i < rest.len() && #[trigger] rest[i] == '<' implies tag_at(
        rest,
        i,
    ) by {
        assert(s[from + i] == '<');
        lemma_tag_shape(s, from + i);
        let end = tag_end(s, from + i);
        assert(s.subrange(from + i, end + 1) =~= rest.subrange(i, end - from + 1));
        lemma_tag_moved(s, rest, from + i, i);
    }
}

/// Whether a text can be cut at a position without cutting a known tag.
pub open spec fn is_seam(s: Seq<char>, at: int) -> bool {
    ||| at <= 0
    ||| at >= s.len()
    ||| s[at] == '<'
    ||| s[at] == '\n'
    ||| s[at] == '\r'
    ||| s[at - 1] == '>'
    ||| forall|k: int| at <= k < s.len() ==> text::is_white(#[trigger] s[k])
}

/// What precedes a seam in a text with known tags only has known tags only.
pub proof fn lemma_tags_cut(s: Seq<char>, at: int)
    requires
        has_only_tags(s),
        0 <= at <= s.len(),
        is_seam(s, at),
    ensures
        has_only_tags(s.take(at)),
{
    let head = s.take(at);
    assert forall|i: int| 0 <= i < head.len() && #[trigger] head[i] == '<' implies tag_at(
        head,
        i,
    ) by {
        assert(s[i] == '<');
        lemma_tag_shape(s, i);
        let end = tag_end(s, i);
        if end >= at {
            assert(at < s.len());
            if at < end {
                assert(s[at] != '<' && s[at] != '\n' && s[at] != '\r');
            }
            if i < at - 1 {
                assert(s[at - 1] != '>');
            }
            assert(!text::is_white(s[end]));
            assert(false);
        }
        assert(s.subrange(i, end + 1) =~= head.subrange(i, end + 1));
        lemma_tag_moved(s, head, i, i);
    }
}

/// An escaped text has no bracket and no quotation mark.
pub proof fn law_escaped_has_no_markup(s: Seq<char>)
    ensures
        forall|i: int|
            0 <= i < escaped(s).len() ==> #[trigger] escaped(s)[i] != '<' && escaped(s)[i] != '>'
                && escaped(s)[i] != '"',
    decreases s.len(),
{
    if s.len() > 0 {
        reveal_strlit("&amp;");
        reveal_strlit("&lt;");
        reveal_strlit("&gt;");
        reveal_strlit("&quot;");
        law_escaped_has_no_markup(s.drop_last());
        let head = escaped(s.drop_last());
        let tail = escaped_char(s.last());
        assert forall|i: int| 0 <= i < escaped(s).len() implies #[trigger] escaped(s)[i] != '<'
            && escaped(s)[i] != '>' && escaped(s)[i] != '"' by {
            if i < head.len() {
                assert(escaped(s)[i] == head[i]);
            } else {
                assert(escaped(s)[i] == tail[i - head.len()]);
            }
        }
    }
}

/// Escaping two texts one after the other is escaping each.
pub proof fn law_escaped_in_parts(a: Seq<char>, b: Seq<char>)
    ensures
        escaped(a + b) == escaped(a) + escaped(b),
    decreases b.len(),
{
    if b.len() == 0 {
        assert(a + b =~= a);
        assert(escaped(a) + escaped(b) =~= escaped(a));
    } else {
        assert((a + b).drop_last() =~= a + b.drop_last());
        law_escaped_in_parts(a, b.drop_last());
        assert(escaped(a) + (escaped(b.drop_last()) + escaped_char(b.last())) =~= escaped(a)
            + escaped(b.drop_last()) + escaped_char(b.last()));
    }
}

/// An escaped text has known tags only: none.
pub proof fn lemma_escaped_tags(s: Seq<char>)
    ensures
        has_only_tags(escaped(s)),
{
    law_escaped_has_no_markup(s);
}

/// The tags themselves, and the other fixed parts, have known tags only.
pub proof fn lemma_fixed_tags()
    ensures
        has_only_tags("<b>"@),
        has_only_tags("</b>"@),
        has_only_tags("<i>"@),
        has_only_tags("</i>"@),
        has_only_tags("<s>"@),
        has_only_tags("</s>"@),
        has_only_tags("<code>"@),
        has_only_tags("</code>"@),
        has_only_tags("<pre><code>"@),
        has_only_tags("</code></pre>"@),
        has_only_tags("<a href=\""@),
        has_only_tags("\">"@),
        has_only_tags("</a>"@),
        has_only_tags("----"@),
        has_only_tags("[x] "@),
        has_only_tags("[ ] "@),
        has_only_tags("- "@),
        has_only_tags(". "@),
        has_only_tags("\n"@),
        has_only_tags(Seq::<char>::empty()),
{
    reveal_strlit("<b>");
    reveal_strlit("</b>");
    reveal_strlit("<i>");
    reveal_strlit("</i>");
    reveal_strlit("<s>");
    reveal_strlit("</s>");
    reveal_strlit("<code>");
    reveal_strlit("</code>");
    reveal_strlit("<pre>");
    reveal_strlit("</pre>");
    reveal_strlit("<pre><code>");
    reveal_strlit("</code></pre>");
    reveal_strlit("<a href=\"");
    reveal_strlit("\">");
    reveal_strlit("</a>");
    reveal_strlit("----");
    reveal_strlit("[x] ");
    reveal_strlit("[ ] ");
    reveal_strlit("- ");
    reveal_strlit(". ");
    reveal_strlit("\n");
    lemma_whole_tag("<b>"@);
    lemma_whole_tag("</b>"@);
    lemma_whole_tag("<i>"@);
    lemma_whole_tag("</i>"@);
    lemma_whole_tag("<s>"@);
    lemma_whole_tag("</s>"@);
    lemma_whole_tag("<code>"@);
    lemma_whole_tag("</code>"@);
    lemma_whole_tag("<pre>"@);
    lemma_whole_tag("</pre>"@);
    lemma_whole_tag("<a href=\""@);
    lemma_whole_tag("</a>"@);
    lemma_tags_appended("<pre>"@, "<code>"@);
    assert("<pre>"@ + "<code>"@ =~= "<pre><code>"@);
    lemma_tags_appended("</code>"@, "</pre>"@);
    assert("</code>"@ + "</pre>"@ =~= "</code></pre>"@);
}

/// A text that is one known tag has known tags only.
proof fn lemma_whole_tag(tag: Seq<char>)
    requires
        tag == "<b>"@ || tag == "</b>"@ || tag == "<i>"@ || tag == "</i>"@ || tag == "<s>"@ || tag
            == "</s>"@ || tag == "<code>"@ || tag == "</code>"@ || tag == "<pre>"@ || tag
            == "</pre>"@ || tag == "<a href=\""@ || tag == "</a>"@,
    ensures
        has_only_tags(tag),
{
    reveal_strlit("<b>");
    reveal_strlit("</b>");
    reveal_strlit("<i>");
    reveal_strlit("</i>");
    reveal_strlit("<s>");
    reveal_strlit("</s>");
    reveal_strlit("<code>");
    reveal_strlit("</code>");
    reveal_strlit("<pre>");
    reveal_strlit("</pre>");
    reveal_strlit("<a href=\"");
    reveal_strlit("</a>");
    assert(tag.subrange(0, tag.len() as int) =~= tag);
    assert(tag_at(tag, 0));
    assert forall|i: int| 0 <= i < tag.len() && #[trigger] tag[i] == '<' implies tag_at(tag, i) by {
        assert(i == 0);
    }
}

/// Breaks add no tag.
pub proof fn lemma_broken_tags(html: Seq<char>)
    requires
        has_only_tags(html),
    ensures
        has_only_tags(line_broken(html)),
        has_only_tags(block_broken(html)),
{
    let feed = seq!['\n'];
    assert(has_only_tags(feed));
    lemma_tags_appended(html, feed);
    assert(html + feed =~= html.push('\n'));
    lemma_tags_appended(html.push('\n'), feed);
    assert(html.push('\n') + feed =~= html.push('\n').push('\n'));
}

/// Trimming cuts no tag.
pub proof fn lemma_trimmed_tags(s: Seq<char>)
    requires
        has_only_tags(s),
    ensures
        has_only_tags(text::trimmed_start(s)),
        has_only_tags(text::trimmed_end(s)),
        has_only_tags(text::trimmed(s)),
{
    lemma_trimmed_start_tags(s);
    lemma_trimmed_end_tags(s);
    lemma_trimmed_end_tags(text::trimmed_start(s));
}

/// Trimming the start cuts no tag.
proof fn lemma_trimmed_start_tags(s: Seq<char>)
    requires
        has_only_tags(s),
    ensures
        has_only_tags(text::trimmed_start(s)),
    decreases s.len(),
{
    if s.len() > 0 && text::is_white(s[0]) {
        lemma_tags_skipped(s, 1);
        assert(s.skip(1) =~= s.drop_first());
        lemma_trimmed_start_tags(s.drop_first());
    }
}

/// Trimming the end cuts no tag.
proof fn lemma_trimmed_end_tags(s: Seq<char>)
    requires
        has_only_tags(s),
    ensures
        has_only_tags(text::trimmed_end(s)),
    decreases s.len(),
{
    if s.len() > 0 && text::is_white(s.last()) {
        assert(is_seam(s, s.len() - 1));
        lemma_tags_cut(s, s.len() - 1);
        assert(s.take(s.len() - 1) =~= s.drop_last());
        lemma_trimmed_end_tags(s.drop_last());
    }
}

/// Spaces and digits add no tag.
pub proof fn lemma_plain_tags(n: nat)
    ensures
        has_only_tags(spaces(n)),
        has_only_tags(text::decimal(n)),
    decreases n,
{
    if n >= 10 {
        lemma_plain_tags(n / 10);
        let head = text::decimal(n / 10);
        let last = seq![text::digit(n)];
        lemma_tags_appended(head, last);
        assert(head + last =~= head.push(text::digit(n)));
    }
}

/// A rendered event adds known tags only.
pub proof fn lemma_rendered_tags(doc: DocumentModel, event: EventModel)
    requires
        has_only_tags(doc.html),
    ensures
        has_only_tags(rendered(doc, event).html),
{
    lemma_fixed_tags();
    lemma_broken_tags(doc.html);
    match event {
        EventModel::Start(tag) => lemma_opened_tags(doc, tag),
        EventModel::End(tag) => lemma_closed_tags(doc, tag),
        EventModel::Text(body) => {
            lemma_escaped_tags(body);
            lemma_tags_appended(doc.html, escaped(body));
        },
        EventModel::Html(body) => {
            lemma_escaped_tags(body);
            lemma_tags_appended(doc.html, escaped(body));
        },
        EventModel::Rule => {
            lemma_tags_appended(block_broken(doc.html), "----"@);
            lemma_broken_tags(block_broken(doc.html) + "----"@);
        },
        EventModel::FootnoteReference(label) => {
            lemma_escaped_tags("["@ + label + "]"@);
            lemma_tags_appended(doc.html, escaped("["@ + label + "]"@));
        },
        EventModel::TaskListMarker(checked) => {
            lemma_tags_appended(doc.html, if checked {
                "[x] "@
            } else {
                "[ ] "@
            });
        },
        _ => {},
    }
}

/// The start of an element adds known tags only.
proof fn lemma_opened_tags(doc: DocumentModel, tag: TagModel)
    requires
        has_only_tags(doc.html),
    ensures
        has_only_tags(element_opened(doc, tag).html),
{
    lemma_fixed_tags();
    lemma_broken_tags(doc.html);
    match tag {
        TagModel::Heading => lemma_tags_appended(block_broken(doc.html), "<b>"@),
        TagModel::Emphasis => lemma_tags_appended(doc.html, "<i>"@),
        TagModel::Strong => lemma_tags_appended(doc.html, "<b>"@),
        TagModel::Strikethrough => lemma_tags_appended(doc.html, "<s>"@),
        TagModel::CodeBlock(language) => {
            let open = block_broken(doc.html) + "<pre><code>"@;
            lemma_tags_appended(block_broken(doc.html), "<pre><code>"@);
            if language is Some {
                let name = text::trimmed(language->0);
                lemma_escaped_tags(name);
                lemma_tags_appended(open, escaped(name));
                let feed = seq!['\n'];
                lemma_tags_appended(open + escaped(name), feed);
                assert(open + escaped(name) + feed =~= (open + escaped(name)).push('\n'));
            }
        },
        TagModel::Item => lemma_item_tags(doc),
        TagModel::Link(url) => {
            lemma_escaped_tags(url);
            lemma_tags_appended(doc.html, "<a href=\""@);
            lemma_tags_appended(doc.html + "<a href=\""@, escaped(url));
            lemma_tags_appended(doc.html + "<a href=\""@ + escaped(url), "\">"@);
        },
        TagModel::Image(url) => {
            lemma_escaped_tags("Image: "@ + url);
            lemma_tags_appended(doc.html, escaped("Image: "@ + url));
        },
        _ => {},
    }
}

/// The start of a list item adds no tag.
proof fn lemma_item_tags(doc: DocumentModel)
    requires
        has_only_tags(doc.html),
    ensures
        has_only_tags(item_opened(doc).html),
{
    lemma_fixed_tags();
    let feed = seq!['\n'];
    lemma_tags_appended(doc.html, feed);
    assert(doc.html + feed =~= doc.html.push('\n'));
    let fresh = if doc.html.len() == 0 || ends_in(doc.html, '\n') {
        doc.html
    } else {
        doc.html.push('\n')
    };
    let depth: nat = if doc.lists.len() == 0 {
        0
    } else {
        (doc.lists.len() - 1) as nat
    };
    lemma_plain_tags(2 * depth);
    lemma_tags_appended(fresh, spaces(2 * depth));
    let indented = fresh + spaces(2 * depth);
    lemma_tags_appended(indented, "- "@);
    if doc.lists.len() > 0 {
        let number = text::decimal(doc.lists.last().next_index as nat);
        lemma_plain_tags(doc.lists.last().next_index as nat);
        lemma_tags_appended(indented, number);
        lemma_tags_appended(indented + number, ". "@);
    }
}

/// The end of an element adds known tags only.
proof fn lemma_closed_tags(doc: DocumentModel, tag: TagModel)
    requires
        has_only_tags(doc.html),
    ensures
        has_only_tags(element_closed(doc, tag).html),
{
    lemma_fixed_tags();
    lemma_broken_tags(doc.html);
    lemma_tags_appended(doc.html, "</b>"@);
    lemma_broken_tags(doc.html + "</b>"@);
    lemma_tags_appended(doc.html, "</i>"@);
    lemma_tags_appended(doc.html, "</s>"@);
    lemma_tags_appended(doc.html, "</code></pre>"@);
    lemma_broken_tags(doc.html + "</code></pre>"@);
    lemma_tags_appended(doc.html, "</a>"@);
}

/// Where a piece of a text stands.
proof fn lemma_piece_bounds(s: Seq<char>, separator: char, k: int) -> (bounds: (int, int))
    requires
        0 <= k < text::pieces(s, separator).len(),
    ensures
        0 <= bounds.0 <= bounds.1 <= s.len(),
        text::pieces(s, separator)[k] == s.subrange(bounds.0, bounds.1),
        k == text::pieces(s, separator).len() - 1 ==> bounds.1 == s.len(),
        k < text::pieces(s, separator).len() - 1 ==> bounds.1 < s.len() && s[bounds.1] == separator,
    decreases s.len(),
{
    text::lemma_pieces_nonempty(s, separator);
    if s.len() == 0 {
        assert(s.subrange(0, 0) =~= Seq::empty());
        (0, 0)
    } else {
        let shorter = s.drop_last();
        let before = text::pieces(shorter, separator);
        text::lemma_pieces_nonempty(shorter, separator);
        if s.last() == separator && k == before.len() {
            assert(s.subrange(s.len() as int, s.len() as int) =~= Seq::empty());
            (s.len() as int, s.len() as int)
        } else {
            let (a, b) = lemma_piece_bounds(shorter, separator, k);
            if k == before.len() - 1 && s.last() != separator {
                assert(s.subrange(a, s.len() as int) =~= shorter.subrange(a, b).push(s.last()));
                (a, s.len() as int)
            } else {
                assert(s.subrange(a, b) =~= shorter.subrange(a, b));
                (a, b)
            }
        }
    }
}

/// The lines of a text with known tags only have known tags only.
pub proof fn lemma_line_tags(s: Seq<char>, k: int)
    requires
        has_only_tags(s),
        0 <= k < text::lines_of(s).len(),
    ensures
        has_only_tags(text::lines_of(s)[k]),
{
    text::lemma_pieces_nonempty(s, '\n');
    let (a, b) = lemma_piece_bounds(s, '\n', k);
    let piece = text::pieces(s, '\n')[k];
    assert(is_seam(s, b));
    lemma_tags_cut(s, b);
    lemma_tags_skipped(s.take(b), a);
    assert(s.take(b).skip(a) =~= piece);
    if piece.len() > 0 && piece.last() == '\r' {
        assert(is_seam(piece, piece.len() - 1));
        lemma_tags_cut(piece, piece.len() - 1);
        assert(piece.take(piece.len() - 1) =~= piece.drop_last());
    }
}

/// Parts with known tags only, joined by line feeds, have known tags only.
pub proof fn lemma_joined_tags(parts: Seq<Seq<char>>)
    requires
        forall|k: int| 0 <= k < parts.len() ==> has_only_tags(#[trigger] parts[k]),
    ensures
        has_only_tags(text::joined(parts, "\n"@)),
    decreases parts.len(),
{
    lemma_fixed_tags();
    if parts.len() > 1 {
        let head = text::joined(parts.drop_last(), "\n"@);
        assert forall|k: int| 0 <= k < parts.drop_last().len() implies has_only_tags(
            #[trigger] parts.drop_last()[k],
        ) by {
            assert(has_only_tags(parts[k]));
        }
        lemma_joined_tags(parts.drop_last());
        lemma_tags_appended(head, "\n"@);
        lemma_tags_appended(head + "\n"@, parts.last());
    }
}

/// Each kind of inline element has its own tag: emphasis is italic, strong text bold, struck text
/// struck, and a link an anchor. What stands in it is escaped, and nothing else is added.
pub proof fn law_inline_elements_have_their_own_tags(
    doc: DocumentModel,
    body: Seq<char>,
    url: Seq<char>,
)
    ensures
        ({
            let opened = rendered(doc, EventModel::Start(TagModel::Emphasis));
            let filled = rendered(opened, EventModel::Text(body));
            let closed = rendered(filled, EventModel::End(TagModel::Emphasis));
            closed.html == doc.html + "<i>"@ + escaped(body) + "</i>"@ && closed.lists == doc.lists
        }),
        ({
            let opened = rendered(doc, EventModel::Start(TagModel::Strong));
            let filled = rendered(opened, EventModel::Text(body));
            let closed = rendered(filled, EventModel::End(TagModel::Strong));
            closed.html == doc.html + "<b>"@ + escaped(body) + "</b>"@ && closed.lists == doc.lists
        }),
        ({
            let opened = rendered(doc, EventModel::Start(TagModel::Strikethrough));
            let filled = rendered(opened, EventModel::Text(body));
            let closed = rendered(filled, EventModel::End(TagModel::Strikethrough));
            closed.html == doc.html + "<s>"@ + escaped(body) + "</s>"@ && closed.lists == doc.lists
        }),
        ({
            let opened = rendered(doc, EventModel::Start(TagModel::Link(url)));
            let filled = rendered(opened, EventModel::Text(body));
            let closed = rendered(filled, EventModel::End(TagModel::Link(url)));
            closed.html == doc.html + "<a href=\""@ + escaped(url) + "\">"@ + escaped(body)
                + "</a>"@ && closed.lists == doc.lists
        }),
{
}

/// A heading is bold, and code is preformatted, behind its language where it has one. Both are set
/// apart by an empty line before them, unless they come first, and behind them.
pub proof fn law_headings_and_code_are_set_apart(
    doc: DocumentModel,
    body: Seq<char>,
    language: Seq<char>,
)
    ensures
        ({
            let opened = rendered(doc, EventModel::Start(TagModel::Heading));
            let filled = rendered(opened, EventModel::Text(body));
            let closed = rendered(filled, EventModel::End(TagModel::Heading));
            closed.html == block_broken(doc.html) + "<b>"@ + escaped(body) + "</b>\n\n"@
        }),
        ({
            let opened = rendered(doc, EventModel::Start(TagModel::CodeBlock(None)));
            let filled = rendered(opened, EventModel::Text(body));
            let closed = rendered(filled, EventModel::End(TagModel::CodeBlock(None)));
            closed.html == block_broken(doc.html) + "<pre><code>"@ + escaped(body)
                + "</code></pre>\n\n"@
        }),
        text::is_blank(language) ==> ({
            let tag = TagModel::CodeBlock(Some(language));
            let opened = rendered(doc, EventModel::Start(tag));
            let filled = rendered(opened, EventModel::Text(body));
            let closed = rendered(filled, EventModel::End(tag));
            closed.html == block_broken(doc.html) + "<pre><code>"@ + escaped(body)
                + "</code></pre>\n\n"@
        }),
        !text::is_blank(language) ==> ({
            let tag = TagModel::CodeBlock(Some(language));
            let opened = rendered(doc, EventModel::Start(tag));
            let filled = rendered(opened, EventModel::Text(body));
            let closed = rendered(filled, EventModel::End(tag));
            closed.html == block_broken(doc.html) + "<pre><code>"@ + escaped(
                text::trimmed(language),
            ) + "\n"@ + escaped(body) + "</code></pre>\n\n"@
        }),
{
    reveal_strlit("</b>");
    reveal_strlit("</b>\n\n");
    reveal_strlit("</code></pre>");
    reveal_strlit("</code></pre>\n\n");
    reveal_strlit("\n");
    let head = block_broken(doc.html) + "<b>"@ + escaped(body);
    assert((head + "</b>"@).last() == '>');
    assert((head + "</b>"@).push('\n').push('\n') =~= head + "</b>\n\n"@);
    let plain = block_broken(doc.html) + "<pre><code>"@ + escaped(body);
    assert((plain + "</code></pre>"@).last() == '>');
    assert((plain + "</code></pre>"@).push('\n').push('\n') =~= plain + "</code></pre>\n\n"@);
    let named = (block_broken(doc.html) + "<pre><code>"@ + escaped(text::trimmed(language))).push(
        '\n',
    ) + escaped(body);
    assert(named =~= block_broken(doc.html) + "<pre><code>"@ + escaped(text::trimmed(language))
        + "\n"@ + escaped(body));
    assert((named + "</code></pre>"@).last() == '>');
    assert((named + "</code></pre>"@).push('\n').push('\n') =~= named + "</code></pre>\n\n"@);
}

/// A break adds line feeds and nothing else: behind it the text ends with one, or with two and so
/// with an empty line, unless it is empty. Where the text already does, nothing is added.
pub proof fn law_breaks_end_lines(html: Seq<char>)
    ensures
        line_broken(html).len() > 0 && line_broken(html).last() == '\n',
        line_broken(html) == html || line_broken(html) == html + seq!['\n'],
        line_broken(line_broken(html)) == line_broken(html),
        html.len() == 0 ==> block_broken(html).len() == 0,
        html.len() > 0 ==> text::occurs_at(
            block_broken(html),
            seq!['\n', '\n'],
            block_broken(html).len() - 2,
        ),
        block_broken(html) == html || block_broken(html) == html + seq!['\n'] || block_broken(html)
            == html + seq!['\n', '\n'],
        block_broken(block_broken(html)) == block_broken(html),
        html.len() > 0 && html.last() != '\n' ==> block_broken(html) == html + seq!['\n', '\n'],
{
    let broken = block_broken(html);
    if html.len() > 0 {
        assert(broken.subrange(broken.len() - 2, broken.len() as int) =~= seq!['\n', '\n']);
    }
    assert(html.push('\n') =~= html + seq!['\n']);
    assert(html.push('\n').push('\n') =~= html + seq!['\n', '\n']);
}

/// An item of a numbered list shows its number, and the next item of the list the next number; an
/// item of another list shows a dash. It begins on a line of its own, two spaces further in for
/// each list that the list stands in.
pub proof fn law_items_are_counted(doc: DocumentModel)
    ensures
        ({
            let opened = rendered(doc, EventModel::Start(TagModel::Item));
            let start = if doc.html.len() == 0 {
                doc.html
            } else {
                line_broken(doc.html)
            };
            &&& doc.lists.len() == 0 ==> opened.html == start + "- "@ && opened.lists == doc.lists
            &&& doc.lists.len() > 0 && !doc.lists.last().ordered ==> opened.html == start + spaces(
                (2 * (doc.lists.len() - 1)) as nat,
            ) + "- "@ && opened.lists == doc.lists
            &&& doc.lists.len() > 0 && doc.lists.last().ordered ==> opened.html == start + spaces(
                (2 * (doc.lists.len() - 1)) as nat,
            ) + text::decimal(doc.lists.last().next_index as nat) + ". "@
            &&& doc.lists.len() > 0 && doc.lists.last().ordered && doc.lists.last().next_index
                < u64::MAX ==> opened.lists.len() == doc.lists.len() && opened.lists.last().ordered
                && opened.lists.last().next_index == doc.lists.last().next_index + 1
                && opened.lists.drop_last() == doc.lists.drop_last()
        }),
        rendered(doc, EventModel::End(TagModel::Item)).html == line_broken(doc.html),
{
    if doc.lists.len() == 0 {
        assert(spaces(0) =~= Seq::empty());
        let start = if doc.html.len() == 0 {
            doc.html
        } else {
            line_broken(doc.html)
        };
        assert(start + spaces(0) =~= start);
    } else {
        let list = doc.lists.last();
        assert(doc.lists.drop_last().push(list).drop_last() =~= doc.lists.drop_last());
        assert(item_opened(doc).lists.drop_last() =~= doc.lists.drop_last());
    }
}

/// A paragraph is set apart by empty lines outside of lists; inside of them it ends its line.
/// Breaks end the line. A rule is four dashes between empty lines. An image is named by where it
/// stands, a footnote by its label in brackets, and a box shows whether it is checked.
pub proof fn law_other_elements_are_plain_text(
    doc: DocumentModel,
    url: Seq<char>,
    label: Seq<char>,
)
    ensures
        doc.lists.len() == 0 ==> rendered(doc, EventModel::Start(TagModel::Paragraph)).html
            == block_broken(doc.html),
        doc.lists.len() > 0 ==> rendered(doc, EventModel::Start(TagModel::Paragraph)).html
            == doc.html,
        doc.lists.len() == 0 ==> rendered(doc, EventModel::End(TagModel::Paragraph)).html
            == block_broken(doc.html),
        doc.lists.len() > 0 ==> rendered(doc, EventModel::End(TagModel::Paragraph)).html
            == line_broken(doc.html),
        rendered(doc, EventModel::SoftBreak).html == line_broken(doc.html),
        rendered(doc, EventModel::HardBreak).html == line_broken(doc.html),
        rendered(doc, EventModel::Rule).html == block_broken(doc.html) + "----\n\n"@,
        rendered(doc, EventModel::Start(TagModel::Image(url))).html == doc.html + "Image: "@
            + escaped(url),
        rendered(doc, EventModel::End(TagModel::Image(url))).html == doc.html,
        rendered(doc, EventModel::FootnoteReference(label)).html == doc.html + "["@ + escaped(label)
            + "]"@,
        rendered(doc, EventModel::TaskListMarker(true)).html == doc.html + "[x] "@,
        rendered(doc, EventModel::TaskListMarker(false)).html == doc.html + "[ ] "@,
        rendered(doc, EventModel::Html(label)).html == doc.html + escaped(label),
{
    reveal_strlit("----");
    reveal_strlit("----\n\n");
    reveal_strlit("Image: ");
    reveal_strlit("[");
    reveal_strlit("]");
    let head = block_broken(doc.html);
    assert((head + "----"@).last() == '-');
    assert((head + "----"@).push('\n').push('\n') =~= head + "----\n\n"@);
    law_escaped_in_parts("Image: "@, url);
    law_plain_text_is_kept("Image: "@);
    assert(doc.html + escaped("Image: "@ + url) =~= doc.html + "Image: "@ + escaped(url));
    law_escaped_in_parts("["@ + label, "]"@);
    law_escaped_in_parts("["@, label);
    law_plain_text_is_kept("["@);
    law_plain_text_is_kept("]"@);
    assert(doc.html + escaped("["@ + label + "]"@) =~= doc.html + "["@ + escaped(label) + "]"@);
}

/// A text without a character that means something in HTML stays as it is.
pub proof fn law_plain_text_is_kept(s: Seq<char>)
    requires
        forall|i: int|
            0 <= i < s.len() ==> #[trigger] s[i] != '<' && s[i] != '>' && s[i] != '&' && s[i] != '"',
    ensures
        escaped(s) == s,
    decreases s.len(),
{
    if s.len() > 0 {
        law_plain_text_is_kept(s.drop_last());
        assert(s.drop_last() + seq![s.last()] =~= s);
    }
}

/// A character that means something in HTML is replaced by its own entity, wherever it stands; so
/// no two texts are shown alike.
pub proof fn law_escaped_characters_have_their_entities(a: Seq<char>, b: Seq<char>)
    ensures
        escaped(a + seq!['<'] + b) == escaped(a) + "&lt;"@ + escaped(b),
        escaped(a + seq!['>'] + b) == escaped(a) + "&gt;"@ + escaped(b),
        escaped(a + seq!['&'] + b) == escaped(a) + "&amp;"@ + escaped(b),
        escaped(a + seq!['"'] + b) == escaped(a) + "&quot;"@ + escaped(b),
        escaped(a) == escaped(b) ==> a == b,
{
    lemma_escaped_between(a, '<', b);
    lemma_escaped_between(a, '>', b);
    lemma_escaped_between(a, '&', b);
    lemma_escaped_between(a, '"', b);
    if escaped(a) == escaped(b) {
        lemma_escaped_apart(a, b);
    }
}

proof fn lemma_escaped_between(a: Seq<char>, c: char, b: Seq<char>)
    ensures
        escaped(a + seq![c] + b) == escaped(a) + escaped_char(c) + escaped(b),
{
    law_escaped_in_parts(a + seq![c], b);
    law_escaped_in_parts(a, seq![c]);
    assert(seq![c].drop_last() =~= Seq::<char>::empty());
    assert(escaped(Seq::<char>::empty()) =~= Seq::<char>::empty());
    assert(escaped(seq![c]) =~= escaped_char(c));
}

/// Texts that are shown alike are alike.
proof fn lemma_escaped_apart(a: Seq<char>, b: Seq<char>)
    requires
        escaped(a) == escaped(b),
    ensures
        a == b,
    decreases a.len() + b.len(),
{
    reveal_strlit("&amp;");
    reveal_strlit("&lt;");
    reveal_strlit("&gt;");
    reveal_strlit("&quot;");
    if a.len() > 0 {
        lemma_escaped_first(a);
    }
    if b.len() > 0 {
        lemma_escaped_first(b);
    }
    if a.len() > 0 && b.len() > 0 {
        let whole = escaped(a);
        let first = escaped_char(a[0]);
        assert(whole[0] == first[0] && whole[0] == escaped_char(b[0])[0]);
        assert(first.len() > 1 ==> whole[1] == first[1]);
        assert(escaped_char(b[0]).len() > 1 ==> whole[1] == escaped_char(b[0])[1]);
        assert(a[0] == b[0]);
        assert(whole.skip(first.len() as int) =~= escaped(a.drop_first()));
        assert(whole.skip(first.len() as int) =~= escaped(b.drop_first()));
        lemma_escaped_apart(a.drop_first(), b.drop_first());
        assert(a =~= seq![a[0]] + a.drop_first());
        assert(b =~= seq![b[0]] + b.drop_first());
    } else {
        assert(escaped(Seq::<char>::empty()).len() == 0);
        assert(a.len() == 0 ==> a =~= Seq::<char>::empty());
        assert(b.len() == 0 ==> b =~= Seq::<char>::empty());
    }
}

proof fn lemma_escaped_first(s: Seq<char>)
    requires
        s.len() > 0,
    ensures
        escaped(s) == escaped_char(s[0]) + escaped(s.drop_first()),
{
    let empty = Seq::<char>::empty();
    lemma_escaped_between(empty, s[0], s.drop_first());
    assert(empty + seq![s[0]] + s.drop_first() =~= s);
    assert(escaped(empty) + escaped_char(s[0]) =~= escaped_char(s[0]));
}

/// A line is that of a list if it begins with a dash or a star, or with a number and a point, and a
/// blank behind it, wherever it is indented to; a line that begins with a letter is not.
pub proof fn law_lines_of_lists_begin_with_a_marker(rest: Seq<char>, digit: char)
    ensures
        is_bullet_line(seq!['-', ' '] + rest),
        is_bullet_line(seq!['*', ' '] + rest),
        '0' <= digit <= '9' ==> is_bullet_line(seq![digit, '.', ' '] + rest),
        is_bullet_line(seq![' '] + rest) <==> is_bullet_line(rest),
        rest.len() > 0 && ('a' <= rest[0] <= 'z' || 'A' <= rest[0] <= 'Z') ==> !is_bullet_line(rest),
        !is_bullet_line(Seq::empty()),
{
    text::law_visible_characters_are_not_white('-');
    text::law_visible_characters_are_not_white('*');
    text::law_visible_characters_are_not_white(' ');
    let dashed = seq!['-', ' '] + rest;
    let starred = seq!['*', ' '] + rest;
    assert(dashed[0] == '-' && dashed[1] == ' ');
    assert(starred[0] == '*' && starred[1] == ' ');
    assert(text::trimmed_start(dashed) == dashed);
    assert(text::trimmed_start(starred) == starred);
    assert((seq![' '] + rest).drop_first() =~= rest);
    if '0' <= digit <= '9' {
        let numbered = seq![digit, '.', ' '] + rest;
        text::law_visible_characters_are_not_white(digit);
        assert(numbered[0] == digit && numbered[1] == '.' && numbered[2] == ' ');
        assert(text::trimmed_start(numbered) == numbered);
        let behind = numbered.drop_first();
        assert(behind[0] == '.');
        assert(leading_digits(behind) == 0);
        assert(leading_digits(numbered) == 1);
        assert(numbered.subrange(1, 3) =~= seq!['.', ' ']);
    }
    if rest.len() > 0 && ('a' <= rest[0] <= 'z' || 'A' <= rest[0] <= 'Z') {
        text::law_visible_characters_are_not_white(rest[0]);
        assert(text::trimmed_start(rest) == rest);
        assert(leading_digits(rest) == 0);
    }
}

/// A line is the label of a section only if it ends with a colon, is short, and a list follows.
pub proof fn law_labels_introduce_lists(line: Seq<char>, next: Option<Seq<char>>)
    ensures
        !is_section_label(line, None),
        text::is_blank(line) ==> !is_section_label(line, next),
        next matches Some(following) ==> (!text::is_blank(line) ==> (is_section_label(line, next)
            <==> (text::trimmed(line).last() == ':' || text::trimmed(line).last() == '：')
            && text::byte_len(text::trimmed(line)) <= 40 && is_bullet_line(following))),
{
}

/// What follows upon a line is the next line that is not blank.
pub proof fn law_blank_lines_are_passed_over(lines: Seq<Seq<char>>, from: int)
    requires
        0 <= from,
    ensures
        from >= lines.len() ==> next_filled(lines, from) is None,
        from < lines.len() && text::is_blank(lines[from]) ==> next_filled(lines, from)
            == next_filled(lines, from + 1),
        from < lines.len() && !text::is_blank(lines[from]) ==> next_filled(lines, from) == Some(
            lines[from],
        ),
{
}

} // verus!
