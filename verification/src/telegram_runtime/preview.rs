//! The preview of a reply while a turn runs.
use serde_json::Value;
use vstd::prelude::*;
use vstd::string::*;

use crate::json;
use crate::markdown;
use crate::repository::{EntryModel, TranscriptMirrorDelivery, TranscriptMirrorEntry};
use crate::telegram_runtime::final_reply;
use crate::text;

verus! {

broadcast use vstd::string::group_string_axioms;

pub const TYPING_HEARTBEAT_SECONDS: u64 = 4;

pub const PREVIEW_HEARTBEAT_SECONDS: u64 = 4;

/// The most characters that a draft may have.
pub const DRAFT_MAX_CHARS: usize = 4096;

/// Something that happened in a session.
#[derive(Debug)]
pub enum CodexThreadEvent {
    ThreadStarted,
    /// A turn has started, with its id where it is known.
    TurnStarted { turn_id: Option<String> },
    TurnCompleted,
    TurnFailed { error: String },
    Error { message: String },
    ItemStarted { item: Value },
    ItemUpdated { item: Value },
    ItemCompleted { item: Value },
}

/// A request to show a draft.
#[derive(Debug, Clone, PartialEq, Eq)]
pub struct SendMessageDraftRequest {
    pub chat_id: i64,
    pub message_thread_id: Option<i32>,
    pub draft_id: i32,
    pub parse_mode: Option<&'static str>,
    pub text: String,
}

/// The words of a text on one line, cut to the limit.
pub open spec fn summarized(s: Seq<char>, limit: nat) -> Seq<char> {
    final_reply::cut(text::joined(text::words(s), " "@), limit)
}

/// The words of a text on one line, cut to the limit.
pub fn summarize_text(s: &str, max_chars: usize) -> (res: String)
    ensures
        res@ == summarized(s@, max_chars as nat),
{
    let words = text::split_words(s);
    let compact = text::join(&words, " ");
    final_reply::truncate_chars(compact.as_str(), max_chars)
}

/// The marker of a preview, which changes with every beat.
pub open spec fn beat_marker(frame: usize) -> Seq<char> {
    if frame % 2 == 0 {
        "○"@
    } else {
        "●"@
    }
}

/// The marker of a preview.
pub fn preview_heartbeat_marker(frame: usize) -> (res: &'static str)
    ensures
        res@ == beat_marker(frame),
{
    if frame % 2 == 0 {
        "○"
    } else {
        "●"
    }
}

/// The name of the next draft, and what the counter holds then. The names are positive.
pub fn next_preview_draft_id(counter: i32) -> (res: (i32, i32))
    ensures
        counter > 0 ==> res.0 == counter,
        counter <= 0 ==> res == (1i32, 2i32),
        0 < counter < i32::MAX ==> res.1 == counter + 1,
        counter == i32::MAX ==> res.1 == i32::MIN,
        res.0 > 0,
{
    if counter <= 0 {
        return (1, 2);
    }
    if counter == i32::MAX {
        (counter, i32::MIN)
    } else {
        (counter, counter + 1)
    }
}

/// A preview that grows.
#[derive(Debug)]
pub struct PreviewRenderer {
    pub status: String,
    pub status_frame: usize,
    pub draft_text: String,
    pub final_response: String,
    pub latest_render: String,
    pub max_chars: usize,
    pub in_progress: bool,
}

/// The model of a preview.
#[verifier::ext_equal]
pub struct PreviewModel {
    pub status: Seq<char>,
    pub status_frame: usize,
    pub draft_text: Seq<char>,
    pub final_response: Seq<char>,
    pub latest_render: Seq<char>,
    pub max_chars: usize,
    pub in_progress: bool,
}

impl View for PreviewRenderer {
    type V = PreviewModel;

    open spec fn view(&self) -> PreviewModel {
        PreviewModel {
            status: self.status@,
            status_frame: self.status_frame,
            draft_text: self.draft_text@,
            final_response: self.final_response@,
            latest_render: self.latest_render@,
            max_chars: self.max_chars,
            in_progress: self.in_progress,
        }
    }
}

impl PreviewModel {
    /// A preview that has just begun.
    pub open spec fn fresh(max_chars: usize) -> PreviewModel {
        PreviewModel {
            status: "Preparing reply..."@,
            status_frame: 0,
            draft_text: Seq::empty(),
            final_response: Seq::empty(),
            latest_render: Seq::empty(),
            max_chars,
            in_progress: true,
        }
    }

    /// The preview as it is shown: the marker, and the draft, or, where there is none yet,
    /// the status.
    pub open spec fn rendered(self) -> Seq<char> {
        let marker = beat_marker(self.status_frame);
        let body = if self.draft_text.len() > 0 {
            self.draft_text
        } else {
            self.status
        };
        final_reply::cut(
            if body.len() == 0 {
                marker
            } else {
                marker + " "@ + body
            },
            self.max_chars as nat,
        )
    }

    /// The preview after it was rendered.
    pub open spec fn shown(self) -> PreviewModel {
        PreviewModel { latest_render: self.rendered(), ..self }
    }

    /// The preview with another status.
    pub open spec fn with_status(self, status: Seq<char>) -> PreviewModel {
        PreviewModel { status, ..self }
    }

    /// The preview with another status, unless there is a draft.
    pub open spec fn with_idle_status(self, status: Seq<char>) -> PreviewModel {
        if self.draft_text.len() == 0 {
            self.with_status(status)
        } else {
            self
        }
    }

    /// The preview that goes on, with another status.
    pub open spec fn going_on(self, status: Seq<char>) -> PreviewModel {
        PreviewModel { in_progress: true, status, ..self }
    }

    /// The preview that has come to its end, with another status.
    pub open spec fn stopped(self, status: Seq<char>) -> PreviewModel {
        PreviewModel { in_progress: false, status, ..self }
    }

    /// The preview after news of an item: its kind and its text.
    pub open spec fn after_item(self, kind: Option<Seq<char>>, body: Option<Seq<char>>) -> PreviewModel {
        match kind {
            Some(kind) => {
                if kind == "agent_message"@ {
                    match text::filled(body) {
                        Some(draft) => PreviewModel {
                            draft_text: draft,
                            final_response: draft,
                            status: "Drafting..."@,
                            ..self
                        },
                        None => self,
                    }
                } else if kind == "reasoning"@ {
                    self.with_idle_status("Thinking..."@)
                } else if kind == "command_execution"@ || kind == "mcp_tool_call"@ || kind
                    == "web_search"@ {
                    self.with_idle_status("Using tools..."@)
                } else if kind == "todo_list"@ {
                    self.with_idle_status("Planning..."@)
                } else {
                    self
                }
            },
            None => self,
        }
    }

    /// The preview after something happened.
    pub open spec fn after(self, event: CodexThreadEvent) -> PreviewModel {
        match event {
            CodexThreadEvent::ThreadStarted => self.going_on("Preparing reply..."@),
            CodexThreadEvent::TurnStarted { .. } => self.going_on("Reading context..."@),
            CodexThreadEvent::TurnCompleted => self.stopped("Finalizing..."@),
            CodexThreadEvent::TurnFailed { error } => self.stopped(
                "Preview unavailable\n"@ + summarized(error@, 120),
            ),
            CodexThreadEvent::Error { message } => self.stopped(
                "Preview unavailable\n"@ + summarized(message@, 120),
            ),
            CodexThreadEvent::ItemStarted { item } => self.after_item(
                json::text_in(json::json_nodes(item), "/type"@),
                json::text_in(json::json_nodes(item), "/text"@),
            ),
            CodexThreadEvent::ItemUpdated { item } => self.after_item(
                json::text_in(json::json_nodes(item), "/type"@),
                json::text_in(json::json_nodes(item), "/text"@),
            ),
            CodexThreadEvent::ItemCompleted { item } => self.after_item(
                json::text_in(json::json_nodes(item), "/type"@),
                json::text_in(json::json_nodes(item), "/text"@),
            ),
        }
    }

    /// The preview after a line of progress, where it says something.
    pub open spec fn after_entry(self, entry: EntryModel) -> PreviewModel {
        if entry.delivery == TranscriptMirrorDelivery::Process {
            match text::filled(Some(entry.text)) {
                Some(status) => self.with_status(status).shown(),
                None => self,
            }
        } else {
            self
        }
    }

    /// The preview after a draft from elsewhere, where it says something.
    pub open spec fn after_draft(self, draft: Seq<char>) -> PreviewModel {
        match text::filled(Some(draft)) {
            Some(draft) => PreviewModel { draft_text: draft, ..self.going_on("Drafting..."@) }.shown(),
            None => self,
        }
    }

    /// The preview after a beat.
    pub open spec fn after_beat(self) -> PreviewModel {
        if self.in_progress {
            PreviewModel {
                status_frame: if self.status_frame == usize::MAX {
                    0
                } else {
                    (self.status_frame + 1) as usize
                },
                ..self
            }.shown()
        } else {
            self
        }
    }

    /// The preview after the reply, where it says something.
    pub open spec fn completed(self, reply: Seq<char>) -> PreviewModel {
        match text::filled(Some(reply)) {
            Some(reply) => PreviewModel {
                draft_text: reply,
                final_response: reply,
                ..self.stopped("Finalized"@)
            }.shown(),
            None => self,
        }
    }
}

impl PreviewRenderer {
    /// A preview that has just begun.
    pub fn new(max_chars: usize, _command_output_tail_chars: usize) -> (res: Self)
        ensures
            res@ == PreviewModel::fresh(max_chars),
    {
        PreviewRenderer {
            status: "Preparing reply...".to_owned(),
            status_frame: 0,
            draft_text: String::new(),
            final_response: String::new(),
            latest_render: String::new(),
            max_chars,
            in_progress: true,
        }
    }

    /// The preview as it is shown.
    fn render_text(&self) -> (res: String)
        ensures
            res@ == self@.rendered(),
    {
        let marker = preview_heartbeat_marker(self.status_frame);
        let body = if !self.draft_text.as_str().is_empty() {
            self.draft_text.as_str()
        } else {
            self.status.as_str()
        };
        let whole = if body.is_empty() {
            marker.to_owned()
        } else {
            text::concat3(marker, " ", body)
        };
        final_reply::truncate_chars(whole.as_str(), self.max_chars)
    }

    /// Renders the preview; tells whether it shows something else than before.
    fn refresh(&mut self) -> (res: bool)
        ensures
            final(self)@ == old(self)@.shown(),
            res == (old(self)@.rendered() != old(self)@.latest_render),
    {
        let next = self.render_text();
        let changed = !text::same_text(next.as_str(), self.latest_render.as_str());
        self.latest_render = next;
        changed
    }

    /// Takes in news of an item: its kind and its text.
    pub fn consume_item(&mut self, kind: Option<&str>, body: Option<&str>)
        ensures
            final(self)@ == old(self)@.after_item(text::opt_str_view(kind), text::opt_str_view(body)),
    {
        let kind = match kind {
            Some(kind) => kind,
            None => return,
        };
        let idle = self.draft_text.as_str().is_empty();
        if text::same_text(kind, "agent_message") {
            match text::trim_filled(body) {
                Some(draft) => {
                    self.draft_text = draft.to_owned();
                    self.final_response = draft.to_owned();
                    self.status = "Drafting...".to_owned();
                },
                None => {},
            }
        } else if text::same_text(kind, "reasoning") {
            if idle {
                self.status = "Thinking...".to_owned();
            }
        } else if text::same_text(kind, "command_execution") || text::same_text(
            kind,
            "mcp_tool_call",
        ) || text::same_text(kind, "web_search") {
            if idle {
                self.status = "Using tools...".to_owned();
            }
        } else if text::same_text(kind, "todo_list") {
            if idle {
                self.status = "Planning...".to_owned();
            }
        }
    }

    /// Takes in news of an item.
    fn consume_value(&mut self, item: &Value)
        ensures
            final(self)@ == old(self)@.after_item(
                json::text_in(json::json_nodes(*item), "/type"@),
                json::text_in(json::json_nodes(*item), "/text"@),
            ),
    {
        let kind = json::text_at(item, "/type");
        let body = json::text_at(item, "/text");
        self.consume_item(text::as_deref(&kind), text::as_deref(&body));
    }

    /// Takes in what happened; tells whether the preview shows something else than before.
    pub fn consume(&mut self, event: &CodexThreadEvent) -> (res: bool)
        ensures
            final(self)@ == old(self)@.after(*event).shown(),
            res == (old(self)@.after(*event).rendered() != old(self)@.after(*event).latest_render),
    {
        match event {
            CodexThreadEvent::ThreadStarted => {
                self.in_progress = true;
                self.status = "Preparing reply...".to_owned();
            },
            CodexThreadEvent::TurnStarted { .. } => {
                self.in_progress = true;
                self.status = "Reading context...".to_owned();
            },
            CodexThreadEvent::TurnCompleted => {
                self.in_progress = false;
                self.status = "Finalizing...".to_owned();
            },
            CodexThreadEvent::TurnFailed { error } => {
                let summary = summarize_text(error.as_str(), 120);
                self.in_progress = false;
                self.status = text::concat2("Preview unavailable\n", summary.as_str());
            },
            CodexThreadEvent::Error { message } => {
                let summary = summarize_text(message.as_str(), 120);
                self.in_progress = false;
                self.status = text::concat2("Preview unavailable\n", summary.as_str());
            },
            CodexThreadEvent::ItemStarted { item } => self.consume_value(item),
            CodexThreadEvent::ItemUpdated { item } => self.consume_value(item),
            CodexThreadEvent::ItemCompleted { item } => self.consume_value(item),
        }
        self.refresh()
    }

    /// Takes in a line of progress; tells whether the preview shows something else than before.
    pub fn consume_process_entry(&mut self, entry: &TranscriptMirrorEntry) -> (res: bool)
        ensures
            final(self)@ == old(self)@.after_entry(entry@),
            res == (old(self)@.after_entry(entry@).latest_render != old(self)@.latest_render),
    {
        if entry.delivery != TranscriptMirrorDelivery::Process {
            return false;
        }
        match text::trim_filled(Some(entry.text.as_str())) {
            Some(status) => {
                self.status = status.to_owned();
                self.refresh()
            },
            None => false,
        }
    }

    /// Takes in a draft from elsewhere; tells whether the preview shows something else than
    /// before.
    pub fn consume_preview_text(&mut self, draft: &str) -> (res: bool)
        ensures
            final(self)@ == old(self)@.after_draft(draft@),
            res == (old(self)@.after_draft(draft@).latest_render != old(self)@.latest_render),
    {
        match text::trim_filled(Some(draft)) {
            Some(draft) => {
                self.in_progress = true;
                self.status = "Drafting...".to_owned();
                self.draft_text = draft.to_owned();
                self.refresh()
            },
            None => false,
        }
    }

    /// Lets the marker beat; tells whether the preview shows something else than before.
    pub fn heartbeat(&mut self) -> (res: bool)
        ensures
            final(self)@ == old(self)@.after_beat(),
            res == (old(self)@.after_beat().latest_render != old(self)@.latest_render),
    {
        if !self.in_progress {
            return false;
        }
        self.status_frame = if self.status_frame == usize::MAX {
            0
        } else {
            self.status_frame + 1
        };
        self.refresh()
    }

    /// Begins anew.
    pub fn reset_for_new_turn(&mut self)
        ensures
            final(self)@ == PreviewModel::fresh(old(self)@.max_chars),
    {
        self.status = "Preparing reply...".to_owned();
        self.status_frame = 0;
        self.draft_text = String::new();
        self.final_response = String::new();
        self.latest_render = String::new();
        self.in_progress = true;
    }

    /// What the preview showed last.
    pub fn get_render_text(&self) -> (res: &str)
        ensures
            res@ == self@.latest_render,
    {
        self.latest_render.as_str()
    }

    /// The reply, as far as it is known.
    pub fn get_final_response(&self) -> (res: &str)
        ensures
            res@ == self@.final_response,
    {
        self.final_response.as_str()
    }

    /// Takes in the reply; tells whether the preview shows something else than before.
    pub fn complete_with_final_text(&mut self, final_text: &str) -> (res: bool)
        ensures
            final(self)@ == old(self)@.completed(final_text@),
            res == (old(self)@.completed(final_text@).latest_render != old(self)@.latest_render),
    {
        match text::trim_filled(Some(final_text)) {
            Some(reply) => {
                self.in_progress = false;
                self.status = "Finalized".to_owned();
                self.draft_text = reply.to_owned();
                self.final_response = reply.to_owned();
                self.refresh()
            },
            None => false,
        }
    }
}

/// The marker and the body of a draft.
pub open spec fn draft_parts(draft: Seq<char>) -> (Seq<char>, Seq<char>) {
    match text::find_from(draft, " "@, 0) {
        Some(at) => (text::trimmed(draft.take(at)), text::trimmed(draft.skip(at + 1))),
        None => (text::trimmed(draft), Seq::empty()),
    }
}

/// The marker and the body of a draft.
fn split_draft(draft: &str) -> (res: (String, String))
    ensures
        res.0@ == draft_parts(draft@).0,
        res.1@ == draft_parts(draft@).1,
{
    let chars = text::to_chars(draft);
    let blank = text::to_chars(" ");
    proof {
        reveal_strlit(" ");
        text::lemma_find_from(draft@, " "@, 0);
    }
    match text::position_from(&chars, &blank, 0) {
        Some(at) => {
            let marker = text::string_between(&chars, 0, at);
            let body = text::string_between(&chars, at + 1, chars.len());
            proof {
                assert(chars@.subrange(0, at as int) =~= draft@.take(at as int));
                assert(chars@.subrange(at + 1, chars@.len() as int) =~= draft@.skip(at + 1));
            }
            (text::trim(marker.as_str()).to_owned(), text::trim(body.as_str()).to_owned())
        },
        None => (text::trim(draft).to_owned(), String::new()),
    }
}

/// A draft as HTML, given its body as HTML.
pub open spec fn draft_html(marker: Seq<char>, body: Seq<char>, body_html: Seq<char>) -> Seq<char> {
    if body.len() == 0 {
        marker
    } else {
        marker + " "@ + body_html
    }
}

/// A draft as HTML: the marker as it is, and the body as Telegram shows it.
pub fn render_draft_html(draft: &str) -> (res: String)
    ensures
        res@ == draft_html(
            draft_parts(draft@).0,
            draft_parts(draft@).1,
            final_reply::reply_html(markdown::markdown_events(draft_parts(draft@).1)),
        ),
{
    let (marker, body) = split_draft(draft);
    if body.as_str().is_empty() {
        return marker;
    }
    let html = final_reply::render_markdown_to_telegram_html(body.as_str());
    text::concat3(marker.as_str(), " ", html.as_str())
}

/// A preview and what was shown of it last.
#[derive(Debug)]
pub struct TurnPreview {
    pub renderer: PreviewRenderer,
    pub last_sent_text: String,
}

/// The draft that is due: what the preview shows, unless it is blank or was shown last, or the
/// last one was shown a moment ago.
pub open spec fn due_draft(
    latest_render: Seq<char>,
    last_sent: Seq<char>,
    sent_lately: bool,
) -> Option<Seq<char>> {
    let shown = text::trimmed(latest_render);
    if shown.len() == 0 || shown == last_sent || sent_lately {
        None
    } else {
        Some(final_reply::cut(shown, DRAFT_MAX_CHARS as nat))
    }
}

impl TurnPreview {
    /// A preview of which nothing was shown yet.
    pub fn new(max_chars: usize, command_output_tail_chars: usize) -> (res: Self)
        ensures
            res.renderer@ == PreviewModel::fresh(max_chars),
            res.last_sent_text@ == Seq::<char>::empty(),
    {
        TurnPreview {
            renderer: PreviewRenderer::new(max_chars, command_output_tail_chars),
            last_sent_text: String::new(),
        }
    }

    /// The draft that is due. Whether one was shown a moment ago is given.
    pub fn pending_draft(&self, sent_lately: bool) -> (res: Option<String>)
        ensures
            text::opt_view(res) == due_draft(
                self.renderer@.latest_render,
                self.last_sent_text@,
                sent_lately,
            ),
    {
        let shown = text::trim(self.renderer.get_render_text());
        if shown.is_empty() || text::same_text(shown, self.last_sent_text.as_str()) || sent_lately {
            return None;
        }
        Some(final_reply::truncate_chars(shown, DRAFT_MAX_CHARS))
    }

    /// Notes that a draft was shown.
    pub fn draft_sent(&mut self, draft: String)
        ensures
            final(self).renderer == old(self).renderer,
            final(self).last_sent_text == draft,
    {
        self.last_sent_text = draft;
    }

    /// Begins anew.
    pub fn reset_for_new_turn(&mut self)
        ensures
            final(self).renderer@ == PreviewModel::fresh(old(self).renderer@.max_chars),
            final(self).last_sent_text@ == Seq::<char>::empty(),
    {
        self.renderer.reset_for_new_turn();
        self.last_sent_text = String::new();
    }
}

/// What is said of a draft that was refused.
pub open spec fn refusal_of(status: Seq<char>, description: Option<Seq<char>>) -> Seq<char> {
    "Telegram sendMessageDraft failed (HTTP "@ + status + "): "@ + text::or_text(
        description,
        "unknown Telegram error"@,
    )
}

/// Why a draft was refused, if it was: it is accepted only where both the call and what came back
/// say so.
pub fn draft_refusal(
    http_success: bool,
    status: &str,
    ok: bool,
    description: Option<&str>,
) -> (res: Option<String>)
    ensures
        text::opt_view(res) == if http_success && ok {
            None
        } else {
            Some(refusal_of(status@, text::opt_str_view(description)))
        },
{
    if http_success && ok {
        return None;
    }
    let said = text::text_or(description, "unknown Telegram error");
    Some(text::concat4("Telegram sendMessageDraft failed (HTTP ", status, "): ", said))
}

/// How a draft is shown.
#[derive(Debug, Clone, Copy, PartialEq, Eq, Structural)]
pub enum DraftStage {
    Html,
    Plain,
    Shown,
    GivenUp,
}

/// A draft is tried as HTML first; where that is refused, as plain text; where that is refused
/// too, it is given up.
pub fn advance_draft(stage: DraftStage, accepted: bool) -> (res: DraftStage)
    ensures
        res == match stage {
            DraftStage::Html => if accepted {
                DraftStage::Shown
            } else {
                DraftStage::Plain
            },
            DraftStage::Plain => if accepted {
                DraftStage::Shown
            } else {
                DraftStage::GivenUp
            },
            DraftStage::Shown => DraftStage::Shown,
            DraftStage::GivenUp => DraftStage::GivenUp,
        },
{
    match stage {
        DraftStage::Html => {
            if accepted {
                DraftStage::Shown
            } else {
                DraftStage::Plain
            }
        },
        DraftStage::Plain => {
            if accepted {
                DraftStage::Shown
            } else {
                DraftStage::GivenUp
            }
        },
        DraftStage::Shown => DraftStage::Shown,
        DraftStage::GivenUp => DraftStage::GivenUp,
    }
}

/// A beat changes the marker.
pub proof fn law_beat_changes_marker(preview: PreviewModel)
    requires
        preview.in_progress,
    ensures
        beat_marker(preview.after_beat().status_frame) != beat_marker(preview.status_frame),
{
    reveal_strlit("○");
    reveal_strlit("●");
    assert("○"@[0] == '○');
    assert("●"@[0] == '●');
    assert(usize::MAX % 2 == 1) by {
        assert(usize::MAX == 0xffff_ffff || usize::MAX == 0xffff_ffff_ffff_ffff);
    }
}

/// A preview is never longer than its limit, apart from the three dots of a limit below
/// three.
pub proof fn law_preview_is_short(preview: PreviewModel)
    ensures
        preview.max_chars >= 3 ==> preview.rendered().len() <= preview.max_chars,
{
    reveal_strlit("...");
}

/// Progress and drafts leave the reply untouched; only the session's own messages and the end
/// of the turn set it.
pub proof fn law_reply_is_left_alone(preview: PreviewModel, entry: EntryModel, draft: Seq<char>)
    ensures
        preview.after_entry(entry).final_response == preview.final_response,
        preview.after_draft(draft).final_response == preview.final_response,
        preview.after_beat().final_response == preview.final_response,
{
}

/// A preview shows the draft as soon as there is one, and the status until then, behind a marker and
/// a blank; what does not fit is cut.
pub proof fn law_previews_show_the_draft(preview: PreviewModel)
    ensures
        ({
            let marker = if preview.status_frame % 2 == 0 {
                "○"@
            } else {
                "●"@
            };
            let draft = marker + " "@ + preview.draft_text;
            let status = marker + " "@ + preview.status;
            &&& preview.draft_text.len() > 0 && draft.len() <= preview.max_chars
                ==> preview.rendered() == draft
            &&& preview.draft_text.len() == 0 && preview.status.len() > 0 && status.len()
                <= preview.max_chars ==> preview.rendered() == status
            &&& preview.draft_text.len() == 0 && preview.status.len() == 0 && marker.len()
                <= preview.max_chars ==> preview.rendered() == marker
        }),
{
}

/// What the assistant says is the draft and the reply, as long as it says something. Thinking, the
/// use of tools and planning are told as the status, but never over a draft; other items change
/// nothing.
pub proof fn law_items_change_the_preview(
    preview: PreviewModel,
    kind: Option<Seq<char>>,
    body: Option<Seq<char>>,
)
    ensures
        ({
            let after = preview.after_item(kind, body);
            let says_something = body is Some && !text::is_blank(body->0);
            &&& kind == Some("agent_message"@) && says_something ==> after.draft_text
                == text::trimmed(body->0) && after.final_response == text::trimmed(body->0)
                && after.status == "Drafting..."@
            &&& kind == Some("agent_message"@) && !says_something ==> after == preview
            &&& kind != Some("agent_message"@) ==> after.draft_text == preview.draft_text
                && after.final_response == preview.final_response
            &&& kind != Some("agent_message"@) && preview.draft_text.len() > 0 ==> after == preview
            &&& preview.draft_text.len() == 0 && kind == Some("reasoning"@) ==> after.status
                == "Thinking..."@
            &&& preview.draft_text.len() == 0 && (kind == Some("command_execution"@) || kind == Some(
                "mcp_tool_call"@,
            ) || kind == Some("web_search"@)) ==> after.status == "Using tools..."@
            &&& preview.draft_text.len() == 0 && kind == Some("todo_list"@) ==> after.status
                == "Planning..."@
            &&& after.in_progress == preview.in_progress
        }),
{
    reveal_strlit("agent_message");
    reveal_strlit("reasoning");
    reveal_strlit("command_execution");
    reveal_strlit("mcp_tool_call");
    reveal_strlit("web_search");
    reveal_strlit("todo_list");
    assert("agent_message"@[0] == 'a' && "reasoning"@[0] == 'r' && "command_execution"@[0] == 'c'
        && "mcp_tool_call"@[0] == 'm' && "web_search"@[0] == 'w' && "todo_list"@[0] == 't');
}

/// A preview is in progress from the start of a turn to its end, and no longer; a turn that fails
/// says why. The draft stays, whatever becomes of the turn.
pub proof fn law_previews_follow_the_turn(preview: PreviewModel, event: CodexThreadEvent)
    ensures
        ({
            let after = preview.after(event);
            &&& event is ThreadStarted || event is TurnStarted ==> after.in_progress
            &&& event is TurnCompleted || event is TurnFailed || event is Error
                ==> !after.in_progress
            &&& event is TurnStarted ==> after.status == "Reading context..."@
            &&& event is TurnCompleted ==> after.status == "Finalizing..."@
            &&& event matches CodexThreadEvent::TurnFailed { error } ==> after.status
                == "Preview unavailable\n"@ + summarized(error@, 120)
            &&& event matches CodexThreadEvent::Error { message } ==> after.status
                == "Preview unavailable\n"@ + summarized(message@, 120)
            &&& event !is ItemStarted && event !is ItemUpdated && event !is ItemCompleted
                ==> after.draft_text == preview.draft_text && after.final_response
                == preview.final_response
        }),
{
}

/// The reply ends a preview and is what it shows from then on; a reply that says nothing changes
/// nothing. A draft from elsewhere is shown too, but is no reply, and the preview goes on.
pub proof fn law_replies_end_previews(preview: PreviewModel, reply: Seq<char>)
    ensures
        text::is_blank(reply) ==> preview.completed(reply) == preview && preview.after_draft(reply)
            == preview,
        !text::is_blank(reply) ==> {
            &&& !preview.completed(reply).in_progress
            &&& preview.completed(reply).final_response == text::trimmed(reply)
            &&& preview.completed(reply).draft_text == text::trimmed(reply)
            &&& preview.after_draft(reply).in_progress
            &&& preview.after_draft(reply).draft_text == text::trimmed(reply)
            &&& preview.completed(reply).latest_render == preview.completed(reply).rendered()
            &&& preview.after_draft(reply).latest_render == preview.after_draft(reply).rendered()
        },
        !preview.in_progress ==> preview.after_beat() == preview,
{
}

/// A step of a turn is told as the status; what is said for good is not.
pub proof fn law_steps_are_told_as_the_status(preview: PreviewModel, entry: EntryModel)
    ensures
        entry.delivery is Final ==> preview.after_entry(entry) == preview,
        entry.delivery is Process && !text::is_blank(entry.text) ==> preview.after_entry(
            entry,
        ).status == text::trimmed(entry.text) && preview.after_entry(entry).draft_text
            == preview.draft_text,
        entry.delivery is Process && text::is_blank(entry.text) ==> preview.after_entry(entry)
            == preview,
{
}

/// A draft is due where the preview shows something that was not shown last, unless one was shown a
/// moment ago; it is what the preview shows, as far as a message can hold it.
pub proof fn law_drafts_are_due_where_something_changed(
    latest_render: Seq<char>,
    last_sent: Seq<char>,
    sent_lately: bool,
)
    ensures
        due_draft(latest_render, last_sent, sent_lately) is Some <==> !sent_lately
            && !text::is_blank(latest_render) && text::trimmed(latest_render) != last_sent,
        due_draft(latest_render, last_sent, sent_lately) matches Some(draft) ==> draft.len() <= 4096
            && (text::trimmed(latest_render).len() <= 4096 ==> draft == text::trimmed(
            latest_render,
        )),
{
    reveal_strlit("...");
}

/// The marker of a draft goes up to its first blank, and the body is what follows; without a body
/// the marker stands alone.
pub proof fn law_drafts_are_a_marker_and_a_body(
    marker: Seq<char>,
    body: Seq<char>,
    body_html: Seq<char>,
)
    requires
        !marker.contains(' '),
    ensures
        draft_parts(marker + " "@ + body).0 == text::trimmed(marker),
        draft_parts(marker + " "@ + body).1 == text::trimmed(body),
        draft_html(marker, body, body_html) == if body.len() == 0 {
            marker
        } else {
            marker + " "@ + body_html
        },
{
    reveal_strlit(" ");
    let draft = marker + " "@ + body;
    text::lemma_find_from(draft, " "@, 0);
    let at = marker.len() as int;
    assert(draft.subrange(at, at + 1) =~= " "@);
    assert(text::occurs_at(draft, " "@, at));
    assert forall|i: int| 0 <= i < at implies !#[trigger] text::occurs_at(draft, " "@, i) by {
        if text::occurs_at(draft, " "@, i) {
            assert(draft.subrange(i, i + 1)[0] == ' ');
            assert(marker[i] == ' ');
            assert(marker.contains(' '));
        }
    }
    assert(draft.take(at) =~= marker);
    assert(draft.skip(at + 1) =~= body);
}

/// A preview begins as being prepared and is final once it has the reply; a draft that was refused
/// says with which status, and why where that is known.
pub proof fn law_previews_say_where_they_stand(
    preview: PreviewModel,
    max_chars: usize,
    reply: Seq<char>,
    status: Seq<char>,
    description: Seq<char>,
)
    ensures
        PreviewModel::fresh(max_chars).status == "Preparing reply..."@,
        !text::is_blank(reply) ==> preview.completed(reply).status == "Finalized"@,
        refusal_of(status, Some(description)) == "Telegram sendMessageDraft failed (HTTP "@ + status
            + "): "@ + description,
        refusal_of(status, None) == "Telegram sendMessageDraft failed (HTTP "@ + status + "): "@
            + "unknown Telegram error"@,
{
}

} // verus!
