//! Mirroring what other clients said in a bound session, from the logs in the Codex home.
use serde_json::Value;
use vstd::prelude::*;
use vstd::string::*;

use crate::clock;
use crate::json;
use crate::json::NodeModel;
use crate::paths;
use crate::repository::{
    EntryModel, SessionBinding, ThreadMetadata, TranscriptMirrorDelivery, TranscriptMirrorEntry,
    TranscriptMirrorOrigin, TranscriptMirrorRole,
};
use crate::telegram_runtime;
use crate::telegram_runtime::FlowError;
use crate::text;
use crate::thread_state;
use crate::thread_state::BindingStatus;

pub use crate::clock::timestamp_is_after;

verus! {

broadcast use vstd::string::group_string_axioms;

pub const CURSOR_FILE_NAME: &'static str = "codex-home-session-mirror.json";

pub const CURSOR_SCHEMA_VERSION: u32 = 1;

/// How far the log of a session was read.
#[derive(Debug, Clone, PartialEq, Eq)]
pub struct CodexHomeMirrorCursor {
    pub thread_key: String,
    pub session_id: String,
    pub log_path: String,
    pub last_offset: u64,
    pub last_line: u64,
    pub last_turn_id: Option<String>,
    pub updated_at: String,
    pub last_error: Option<String>,
}

/// The log of a session.
#[derive(Debug, Clone, PartialEq, Eq)]
pub struct CodexHomeSessionLog {
    pub path: String,
    pub len: u64,
    pub cwd: String,
    pub source: Option<String>,
    pub originator: Option<String>,
}

/// Something said in a session that can be mirrored.
#[derive(Debug, Clone, PartialEq, Eq)]
pub struct CodexHomeMirrorCandidate {
    pub line_no: u64,
    pub offset_end: u64,
    pub timestamp: String,
    pub turn_id: String,
    pub role: TranscriptMirrorRole,
    pub text: String,
}

/// Something said in a session, as a value.
pub struct CandidateModel {
    pub line_no: int,
    pub offset_end: int,
    pub timestamp: Seq<char>,
    pub turn_id: Seq<char>,
    pub role: TranscriptMirrorRole,
    pub text: Seq<char>,
}

impl View for CodexHomeMirrorCandidate {
    type V = CandidateModel;

    open spec fn view(&self) -> CandidateModel {
        CandidateModel {
            line_no: self.line_no as int,
            offset_end: self.offset_end as int,
            timestamp: self.timestamp@,
            turn_id: self.turn_id@,
            role: self.role,
            text: self.text@,
        }
    }
}

/// Candidates as values.
pub open spec fn candidate_models(candidates: Seq<CodexHomeMirrorCandidate>) -> Seq<CandidateModel> {
    candidates.map_values(|candidate: CodexHomeMirrorCandidate| candidate@)
}

/// An optional candidate as a value.
pub open spec fn opt_candidate(candidate: Option<CodexHomeMirrorCandidate>) -> Option<CandidateModel> {
    match candidate {
        Some(candidate) => Some(candidate@),
        None => None,
    }
}

/// What was found in a log.
#[derive(Debug, Clone, PartialEq, Eq)]
pub struct CodexHomeParseResult {
    pub candidates: Vec<CodexHomeMirrorCandidate>,
    pub last_line: u64,
    pub last_turn_id: Option<String>,
    pub malformed_lines: u64,
}

/// A turn that is not complete.
#[derive(Debug)]
pub struct PendingTurn {
    pub turn_id: String,
    pub user: Option<CodexHomeMirrorCandidate>,
    pub latest_assistant: Option<CodexHomeMirrorCandidate>,
}

/// A turn that is not complete, as a value.
pub struct PendingModel {
    pub turn_id: Seq<char>,
    pub user: Option<CandidateModel>,
    pub latest_assistant: Option<CandidateModel>,
}

impl View for PendingTurn {
    type V = PendingModel;

    open spec fn view(&self) -> PendingModel {
        PendingModel {
            turn_id: self.turn_id@,
            user: opt_candidate(self.user),
            latest_assistant: opt_candidate(self.latest_assistant),
        }
    }
}

/// The reading of a log, line by line.
#[derive(Debug)]
pub struct LogReader {
    pub result: CodexHomeParseResult,
    pub turn: Option<PendingTurn>,
    /// How many lines were read.
    pub line: u64,
    /// Where the next line begins.
    pub offset: u64,
}

/// The reading of a log, as a value.
pub struct ReaderModel {
    pub candidates: Seq<CandidateModel>,
    pub last_line: int,
    pub last_turn_id: Option<Seq<char>>,
    pub malformed: int,
    pub turn: Option<PendingModel>,
    pub line: int,
    pub offset: int,
}

impl View for LogReader {
    type V = ReaderModel;

    open spec fn view(&self) -> ReaderModel {
        ReaderModel {
            candidates: candidate_models(self.result.candidates@),
            last_line: self.result.last_line as int,
            last_turn_id: text::opt_view(self.result.last_turn_id),
            malformed: self.result.malformed_lines as int,
            turn: match self.turn {
                Some(turn) => Some(turn@),
                None => None,
            },
            line: self.line as int,
            offset: self.offset as int,
        }
    }
}

/// A beginning of a text takes no more bytes than the text.
proof fn lemma_byte_len_prefix(s: Seq<char>, n: int)
    requires
        0 <= n <= s.len(),
    ensures
        text::byte_len(s.take(n)) <= text::byte_len(s),
        n < s.len() ==> text::byte_len(s.take(n)) < text::byte_len(s.take(n + 1)),
        n < s.len() ==> text::byte_len(s.take(n + 1)) == text::byte_len(s.take(n))
            + text::char_bytes(s[n]),
    decreases s.len() - n,
{
    if n < s.len() {
        assert(s.take(n + 1).drop_last() =~= s.take(n));
        assert(s.take(n + 1).last() == s[n]);
        text::lemma_byte_len_last(s.take(n + 1));
        lemma_byte_len_prefix(s, n + 1);
    } else {
        assert(s.take(n) =~= s);
    }
}

fn bytes_of(c: char) -> (res: u64)
    ensures
        res == text::char_bytes(c),
{
    let code = c as u32;
    if code < 0x80 {
        1
    } else if code < 0x800 {
        2
    } else if code < 0x10000 {
        3
    } else {
        4
    }
}

/// How many bytes a text takes in UTF-8.
fn count_bytes(s: &str) -> (res: u64)
    ensures
        res == text::byte_len(s@),
{
    s.as_bytes().len() as u64
}

/// How many characters of a text, from `from` on, take up the bytes before `offset`.
pub open spec fn chars_before(s: Seq<char>, offset: int, from: int) -> Option<int>
    decreases s.len() - from + 1,
{
    if from < 0 || from > s.len() || text::byte_len(s.take(from)) > offset {
        None
    } else if text::byte_len(s.take(from)) == offset {
        Some(from)
    } else {
        chars_before(s, offset, from + 1)
    }
}

/// What stands in a text from a byte on, if a character begins there or the text ends there.
pub open spec fn text_from(s: Seq<char>, offset: int) -> Option<Seq<char>> {
    match chars_before(s, offset, 0) {
        Some(n) => Some(s.skip(n)),
        None => None,
    }
}

/// What stands in a log from a byte on, if a character begins there or the log ends there.
pub fn log_from(content: &str, offset: u64) -> (res: Option<String>)
    ensures
        text::opt_view(res) == text_from(content@, offset as int),
{
    let chars = text::to_chars(content);
    let mut count: u64 = 0;
    let mut i: usize = 0;
    proof {
        assert(content@.take(0) =~= Seq::empty());
    }
    while i < chars.len() && count < offset
        invariant
            i <= chars.len(),
            chars@ == content@,
            count <= offset,
            count == text::byte_len(content@.take(i as int)),
            chars_before(content@, offset as int, 0) == chars_before(
                content@,
                offset as int,
                i as int,
            ),
        decreases chars.len() - i,
    {
        proof {
            lemma_byte_len_prefix(content@, i as int);
        }
        let bytes = bytes_of(chars[i]);
        if bytes > offset - count {
            proof {
                assert(chars_before(content@, offset as int, i + 1) is None);
            }
            return None;
        }
        count = count + bytes;
        i += 1;
    }
    if count == offset {
        let rest = text::string_between(&chars, i, chars.len());
        proof {
            assert(rest@ =~= content@.skip(i as int));
        }
        Some(rest)
    } else {
        proof {
            assert(chars_before(content@, offset as int, i + 1) is None);
        }
        None
    }
}

/// The turn that a line belongs to.
pub open spec fn turn_in(nodes: Map<Seq<char>, NodeModel>) -> Option<Seq<char>> {
    json::either_text_in(nodes, "/payload/id"@, "/payload/turn_id"@)
}

/// The text of a part of a message.
pub open spec fn part_in(nodes: Map<Seq<char>, NodeModel>, i: nat) -> Option<Seq<char>> {
    let place = "/payload/content/"@ + text::decimal(i);
    text::filled(json::either_text_in(nodes, place + "/text"@, place + "/output_text"@))
}

/// The first parts of a message that say something.
pub open spec fn parts_in(nodes: Map<Seq<char>, NodeModel>, count: nat) -> Seq<Seq<char>>
    decreases count,
{
    if count == 0 {
        Seq::empty()
    } else {
        let before = parts_in(nodes, (count - 1) as nat);
        match part_in(nodes, (count - 1) as nat) {
            Some(part) => before.push(part),
            None => before,
        }
    }
}

/// The text of a message: its parts that say something, if any does.
pub open spec fn message_in(nodes: Map<Seq<char>, NodeModel>) -> Option<Seq<char>> {
    match json::list_in(nodes, "/payload/content"@) {
        Some(count) => if parts_in(nodes, count).len() == 0 {
            None
        } else {
            Some(text::joined(parts_in(nodes, count), "\n\n"@))
        },
        None => None,
    }
}

fn part_at(document: &Value, i: usize) -> (res: Option<String>)
    ensures
        text::opt_view(res) == part_in(json::json_nodes(*document), i as nat),
{
    let number = text::decimal_text(i as u64);
    let place = text::concat2("/payload/content/", number.as_str());
    let said = text::concat2(place.as_str(), "/text");
    let put_out = text::concat2(place.as_str(), "/output_text");
    let found = json::either_text_at(document, said.as_str(), put_out.as_str());
    match text::trim_filled(text::as_deref(&found)) {
        Some(part) => Some(part.to_owned()),
        None => None,
    }
}

/// The text of the message that a line holds.
pub fn text_from_message_line(document: &Value) -> (res: Option<String>)
    ensures
        text::opt_view(res) == message_in(json::json_nodes(*document)),
{
    let ghost nodes = json::json_nodes(*document);
    let count = match json::list_at(document, "/payload/content") {
        Some(count) => count,
        None => {
            return None;
        },
    };
    let mut parts: Vec<String> = Vec::new();
    let mut i: usize = 0;
    proof {
        assert(text::views(parts@) =~= parts_in(nodes, 0));
    }
    while i < count
        invariant
            i <= count,
            nodes == json::json_nodes(*document),
            text::views(parts@) == parts_in(nodes, i as nat),
        decreases count - i,
    {
        if let Some(part) = part_at(document, i) {
            text::push_line(&mut parts, part);
        }
        i += 1;
    }
    if parts.len() == 0 {
        return None;
    }
    Some(text::join(&parts, "\n\n"))
}

/// Where the text of a part begins in the text of its message: behind the parts before it that say
/// something, each of them followed by an empty line.
pub open spec fn part_place(nodes: Map<Seq<char>, NodeModel>, i: nat) -> nat
    decreases i,
{
    if i == 0 {
        0
    } else {
        part_place(nodes, (i - 1) as nat) + match part_in(nodes, (i - 1) as nat) {
            Some(part) => part.len() + 2,
            None => 0,
        }
    }
}

/// The text of a message holds every part that says something, in the order of the list, with an
/// empty line between one and the next, and nothing else. Where no part says anything there is no
/// text.
pub proof fn law_messages_hold_every_part(nodes: Map<Seq<char>, NodeModel>, count: nat)
    requires
        nodes.contains_key("/payload/content"@),
        nodes["/payload/content"@] == NodeModel::List(count),
    ensures
        message_in(nodes) is None <==> forall|i: nat|
            i < count ==> #[trigger] part_in(nodes, i) is None,
        message_in(nodes) matches Some(said) ==> {
            &&& said.len() + 2 == part_place(nodes, count)
            &&& forall|i: nat|
                i < count && #[trigger] part_in(nodes, i) is Some ==> text::occurs_at(
                    said,
                    part_in(nodes, i)->0,
                    part_place(nodes, i) as int,
                )
            &&& forall|i: nat|
                i < count && #[trigger] part_in(nodes, i) is Some && part_place(nodes, i) > 0
                    ==> text::occurs_at(said, "\n\n"@, part_place(nodes, i) - 2)
        },
{
    let parts = parts_in(nodes, count);
    reveal_strlit("\n\n");
    lemma_parts_placed(nodes, count, count);
    if parts.len() > 0 {
        let said = text::joined(parts, "\n\n"@);
        text::law_joined_holds_every_part(parts, "\n\n"@, 0);
        assert forall|i: nat| i < count && #[trigger] part_in(nodes, i) is Some implies ({
            &&& text::occurs_at(said, part_in(nodes, i)->0, part_place(nodes, i) as int)
            &&& part_place(nodes, i) > 0 ==> text::occurs_at(
                said,
                "\n\n"@,
                part_place(nodes, i) - 2,
            )
        }) by {
            lemma_parts_placed(nodes, i, count);
            text::law_joined_holds_every_part(
                parts,
                "\n\n"@,
                parts_in(nodes, i).len() as int,
            );
        }
    }
    assert forall|i: nat| i < count && parts.len() == 0 implies #[trigger] part_in(nodes, i) is None by {
        lemma_parts_placed(nodes, i, count);
    }
    if forall|i: nat| i < count ==> #[trigger] part_in(nodes, i) is None {
        lemma_no_parts(nodes, count);
    }
}

/// Where nothing is said there are no parts.
proof fn lemma_no_parts(nodes: Map<Seq<char>, NodeModel>, count: nat)
    requires
        forall|i: nat| i < count ==> #[trigger] part_in(nodes, i) is None,
    ensures
        parts_in(nodes, count).len() == 0,
    decreases count,
{
    if count > 0 {
        lemma_no_parts(nodes, (count - 1) as nat);
        assert(part_in(nodes, (count - 1) as nat) is None);
    }
}

/// The parts before a part that says something are as many as come before it in the text.
proof fn lemma_parts_placed(nodes: Map<Seq<char>, NodeModel>, i: nat, count: nat)
    requires
        i <= count,
    ensures
        parts_in(nodes, i).is_prefix_of(parts_in(nodes, count)),
        part_place(nodes, i) == text::part_start(
            parts_in(nodes, count),
            2,
            parts_in(nodes, i).len() as int,
        ),
        i < count && part_in(nodes, i) is Some ==> parts_in(nodes, i).len() < parts_in(
            nodes,
            count,
        ).len() && parts_in(nodes, count)[parts_in(nodes, i).len() as int] == part_in(nodes, i)->0,
    decreases count, i,
{
    lemma_parts_grow(nodes, i, count);
    if i < count {
        lemma_parts_grow(nodes, i + 1, count);
        if part_in(nodes, i) is Some {
            let longer = parts_in(nodes, i + 1);
            assert(longer == parts_in(nodes, i).push(part_in(nodes, i)->0));
            assert(parts_in(nodes, count)[longer.len() - 1] == longer[longer.len() - 1]);
        }
    }
    if i > 0 {
        lemma_parts_placed(nodes, (i - 1) as nat, count);
    }
}

/// The first parts are first among more of them.
proof fn lemma_parts_grow(nodes: Map<Seq<char>, NodeModel>, i: nat, count: nat)
    requires
        i <= count,
    ensures
        parts_in(nodes, i).is_prefix_of(parts_in(nodes, count)),
    decreases count,
{
    if i < count {
        lemma_parts_grow(nodes, i, (count - 1) as nat);
    }
}

/// What a part says is its text, or, where nothing at all stands there, what it put out; white
/// space around it is left out, and a part that holds nothing else says nothing.
pub proof fn law_parts_say_their_text(
    nodes: Map<Seq<char>, NodeModel>,
    i: nat,
    said: Seq<char>,
)
    ensures
        ({
            let own = "/payload/content/"@ + text::decimal(i) + "/text"@;
            let put_out = "/payload/content/"@ + text::decimal(i) + "/output_text"@;
            &&& nodes.contains_key(own) && nodes[own] == NodeModel::Text(said) ==> part_in(nodes, i)
                == if text::is_blank(said) {
                None
            } else {
                Some(text::trimmed(said))
            }
            &&& !nodes.contains_key(own) && nodes.contains_key(put_out) && nodes[put_out]
                == NodeModel::Text(said) ==> part_in(nodes, i) == if text::is_blank(said) {
                None
            } else {
                Some(text::trimmed(said))
            }
            &&& nodes.contains_key(own) && nodes[own] !is Text ==> part_in(nodes, i) is None
            &&& !nodes.contains_key(own) && (!nodes.contains_key(put_out) || nodes[put_out] !is Text)
                ==> part_in(nodes, i) is None
        }),
{
}

/// Whether a message only sets a session up.
pub open spec fn is_bootstrap(said: Seq<char>) -> bool {
    let said = text::trimmed_start(said);
    "# AGENTS.md instructions"@.is_prefix_of(said)
        || "Read and follow the workspace AGENTS.md if present"@.is_prefix_of(said)
}

/// Whether a message only sets a session up.
pub fn is_bootstrap_user_message(said: &str) -> (res: bool)
    ensures
        res == is_bootstrap(said@),
{
    let said = text::trim_start(said);
    text::starts_with(said, "# AGENTS.md instructions") || text::starts_with(
        said,
        "Read and follow the workspace AGENTS.md if present",
    )
}

impl ReaderModel {
    /// Nothing read yet of a log from a line and an offset on.
    pub open spec fn fresh(base_line: int, base_offset: int) -> ReaderModel {
        ReaderModel {
            candidates: Seq::empty(),
            last_line: 0,
            last_turn_id: None,
            malformed: 0,
            turn: None,
            line: base_line,
            offset: base_offset,
        }
    }

    /// With a line read that says nothing.
    pub open spec fn passed(self, bytes: int) -> ReaderModel {
        ReaderModel {
            last_line: self.line + 1,
            line: self.line + 1,
            offset: self.offset + bytes + 1,
            ..self
        }
    }

    /// With a turn begun.
    pub open spec fn began(self, turn_id: Seq<char>) -> ReaderModel {
        ReaderModel {
            turn: Some(PendingModel { turn_id, user: None, latest_assistant: None }),
            last_turn_id: Some(turn_id),
            ..self
        }
    }

    /// With a message taken in: the first prompt of a turn that does not only set the session up,
    /// and the last reply.
    pub open spec fn heard(
        self,
        role: Option<Seq<char>>,
        timestamp: Seq<char>,
        said: Option<Seq<char>>,
    ) -> ReaderModel {
        match (role, self.turn, said) {
            (Some(role), Some(turn), Some(said)) => {
                let candidate = CandidateModel {
                    line_no: self.line,
                    offset_end: self.offset,
                    timestamp,
                    turn_id: turn.turn_id,
                    role: if role == "user"@ {
                        TranscriptMirrorRole::User
                    } else {
                        TranscriptMirrorRole::Assistant
                    },
                    text: said,
                };
                if role == "user"@ && turn.user is None && !is_bootstrap(said) {
                    ReaderModel {
                        turn: Some(PendingModel { user: Some(candidate), ..turn }),
                        ..self
                    }
                } else if role == "assistant"@ {
                    ReaderModel {
                        turn: Some(PendingModel { latest_assistant: Some(candidate), ..turn }),
                        ..self
                    }
                } else {
                    self
                }
            },
            _ => self,
        }
    }

    /// With the turn complete: its prompt and its reply are candidates, if it has a prompt.
    pub open spec fn closed_turn(self) -> ReaderModel {
        match self.turn {
            Some(turn) => ReaderModel {
                turn: None,
                candidates: match (turn.user, turn.latest_assistant) {
                    (Some(user), Some(assistant)) => self.candidates.push(user).push(assistant),
                    (Some(user), None) => self.candidates.push(user),
                    _ => self.candidates,
                },
                ..self
            },
            None => self,
        }
    }

    /// With a line read, which holds a document or cannot be read.
    pub open spec fn after(
        self,
        document: Option<Map<Seq<char>, NodeModel>>,
        bytes: int,
        now: Seq<char>,
    ) -> ReaderModel {
        let next = self.passed(bytes);
        match document {
            None => ReaderModel { malformed: self.malformed + 1, ..next },
            Some(nodes) => {
                let kind = json::text_in(nodes, "/type"@);
                let payload = json::text_in(nodes, "/payload/type"@);
                if kind == Some("event_msg"@) && payload == Some("task_started"@) && turn_in(
                    nodes,
                ) is Some {
                    next.began(turn_in(nodes)->0)
                } else if kind == Some("turn_context"@) && turn_in(nodes) is Some {
                    if self.turn is None {
                        next.began(turn_in(nodes)->0)
                    } else {
                        ReaderModel { last_turn_id: turn_in(nodes), ..next }
                    }
                } else if kind == Some("response_item"@) {
                    if payload == Some("message"@) {
                        next.heard(
                            json::text_in(nodes, "/payload/role"@),
                            text::or_text(json::text_in(nodes, "/timestamp"@), now),
                            message_in(nodes),
                        )
                    } else {
                        next
                    }
                } else if kind == Some("event_msg"@) && payload == Some("task_complete"@) {
                    next.closed_turn()
                } else {
                    next
                }
            },
        }
    }
}

/// What a line holds, if it can be read.
pub open spec fn document_of(line: Seq<char>) -> Option<Map<Seq<char>, NodeModel>> {
    match json::parsed_json(line) {
        Some(document) => Some(json::json_nodes(document)),
        None => None,
    }
}

/// A log read from a state on.
pub open spec fn read_lines(start: ReaderModel, lines: Seq<Seq<char>>, now: Seq<char>) -> ReaderModel
    decreases lines.len(),
{
    if lines.len() == 0 {
        start
    } else {
        read_lines(start, lines.drop_last(), now).after(
            document_of(lines.last()),
            text::byte_len(lines.last()) as int,
            now,
        )
    }
}

/// How many bytes lines take, with their ends.
pub open spec fn lines_bytes(lines: Seq<Seq<char>>) -> nat
    decreases lines.len(),
{
    if lines.len() == 0 {
        0
    } else {
        lines_bytes(lines.drop_last()) + text::byte_len(lines.last()) + 1
    }
}

/// The reading of lines counts the lines and their bytes, and finds no more malformed lines than
/// there are.
proof fn lemma_read_counts(start: ReaderModel, lines: Seq<Seq<char>>, now: Seq<char>)
    ensures
        ({
            let end = read_lines(start, lines, now);
            &&& end.line == start.line + lines.len()
            &&& end.offset == start.offset + lines_bytes(lines)
            &&& start.malformed <= end.malformed <= start.malformed + lines.len()
        }),
    decreases lines.len(),
{
    if lines.len() > 0 {
        lemma_read_counts(start, lines.drop_last(), now);
    }
}

/// The first lines take no more bytes than all of them.
proof fn lemma_lines_bytes(lines: Seq<Seq<char>>, n: int)
    requires
        0 <= n <= lines.len(),
    ensures
        lines_bytes(lines.take(n)) <= lines_bytes(lines),
        n < lines.len() ==> lines_bytes(lines.take(n + 1)) == lines_bytes(lines.take(n)) + text::byte_len(
            lines[n],
        ) + 1,
    decreases lines.len() - n,
{
    if n < lines.len() {
        assert(lines.take(n + 1).drop_last() =~= lines.take(n));
        assert(lines.take(n + 1).last() == lines[n]);
        lemma_lines_bytes(lines, n + 1);
    } else {
        assert(lines.take(n) =~= lines);
    }
}

fn is_text(found: &Option<String>, wanted: &str) -> (res: bool)
    ensures
        res == (text::opt_view(*found) == Some(wanted@)),
{
    text::same_opt_text(text::as_deref(found), Some(wanted))
}

impl LogReader {
    fn pass(&mut self, bytes: u64)
        requires
            old(self).line < u64::MAX,
            old(self).offset + bytes + 1 <= u64::MAX,
        ensures
            final(self)@ == old(self)@.passed(bytes as int),
    {
        self.line = self.line + 1;
        self.result.last_line = self.line;
        self.offset = self.offset + bytes + 1;
    }

    fn begin_turn(&mut self, turn_id: String)
        ensures
            final(self)@ == old(self)@.began(turn_id@),
    {
        self.result.last_turn_id = Some(turn_id.clone());
        self.turn = Some(PendingTurn { turn_id, user: None, latest_assistant: None });
    }

    fn hear(&mut self, role: Option<String>, timestamp: &str, said: Option<String>)
        ensures
            final(self)@ == old(self)@.heard(
                text::opt_view(role),
                timestamp@,
                text::opt_view(said),
            ),
    {
        let line_no = self.line;
        let offset_end = self.offset;
        let mut pending = None;
        std::mem::swap(&mut pending, &mut self.turn);
        match (role, pending, said) {
            (Some(role), Some(turn), Some(said)) => {
                proof {
                    reveal_strlit("user");
                    reveal_strlit("assistant");
                    assert("user"@.len() == 4);
                    assert("assistant"@.len() == 9);
                }
                if text::same_text(role.as_str(), "user") && turn.user.is_none()
                    && !is_bootstrap_user_message(said.as_str()) {
                    let candidate = CodexHomeMirrorCandidate {
                        line_no,
                        offset_end,
                        timestamp: timestamp.to_owned(),
                        turn_id: turn.turn_id.clone(),
                        role: TranscriptMirrorRole::User,
                        text: said,
                    };
                    self.turn = Some(
                        PendingTurn {
                            turn_id: turn.turn_id,
                            user: Some(candidate),
                            latest_assistant: turn.latest_assistant,
                        },
                    );
                } else if text::same_text(role.as_str(), "assistant") {
                    let candidate = CodexHomeMirrorCandidate {
                        line_no,
                        offset_end,
                        timestamp: timestamp.to_owned(),
                        turn_id: turn.turn_id.clone(),
                        role: TranscriptMirrorRole::Assistant,
                        text: said,
                    };
                    self.turn = Some(
                        PendingTurn {
                            turn_id: turn.turn_id,
                            user: turn.user,
                            latest_assistant: Some(candidate),
                        },
                    );
                } else {
                    self.turn = Some(turn);
                }
            },
            (_, pending, _) => {
                self.turn = pending;
            },
        }
    }

    fn push_candidate(&mut self, candidate: CodexHomeMirrorCandidate)
        ensures
            final(self)@ == (ReaderModel {
                candidates: old(self)@.candidates.push(candidate@),
                ..old(self)@
            }),
    {
        let ghost before = self@.candidates;
        self.result.candidates.push(candidate);
        proof {
            assert(self@.candidates =~= before.push(candidate@));
        }
    }

    fn close_turn(&mut self)
        ensures
            final(self)@ == old(self)@.closed_turn(),
    {
        let mut pending = None;
        std::mem::swap(&mut pending, &mut self.turn);
        if let Some(turn) = pending {
            if let Some(user) = turn.user {
                self.push_candidate(user);
                if let Some(assistant) = turn.latest_assistant {
                    self.push_candidate(assistant);
                }
            }
        }
    }

    /// Reads a line of `bytes` bytes, which holds a document or cannot be read.
    pub fn read_document(&mut self, document: Option<&Value>, bytes: u64, now: &str)
        requires
            old(self).line < u64::MAX,
            old(self).offset + bytes + 1 <= u64::MAX,
            old(self).result.malformed_lines < u64::MAX,
        ensures
            final(self)@ == old(self)@.after(
                match document {
                    Some(document) => Some(json::json_nodes(*document)),
                    None => None,
                },
                bytes as int,
                now@,
            ),
    {
        self.pass(bytes);
        let document = match document {
            Some(document) => document,
            None => {
                self.result.malformed_lines = self.result.malformed_lines + 1;
                return ;
            },
        };
        let kind = json::text_at(document, "/type");
        let payload = json::text_at(document, "/payload/type");
        let turn_id = json::either_text_at(document, "/payload/id", "/payload/turn_id");
        proof {
            reveal_strlit("event_msg");
            reveal_strlit("turn_context");
            reveal_strlit("response_item");
            reveal_strlit("task_started");
            reveal_strlit("task_complete");
            assert("event_msg"@.len() == 9);
            assert("turn_context"@.len() == 12);
            assert("response_item"@.len() == 13);
            assert("task_started"@.len() == 12);
            assert("task_complete"@.len() == 13);
        }
        if is_text(&kind, "event_msg") && is_text(&payload, "task_started") {
            if let Some(turn_id) = turn_id {
                self.begin_turn(turn_id);
            }
            return ;
        }
        if is_text(&kind, "turn_context") {
            if let Some(turn_id) = turn_id {
                if self.turn.is_none() {
                    self.begin_turn(turn_id);
                } else {
                    self.result.last_turn_id = Some(turn_id);
                }
            }
            return ;
        }
        if is_text(&kind, "response_item") {
            if is_text(&payload, "message") {
                let role = json::text_at(document, "/payload/role");
                let stamp = json::text_at(document, "/timestamp");
                let said = text_from_message_line(document);
                self.hear(role, text::text_or(text::as_deref(&stamp), now), said);
            }
            return ;
        }
        if is_text(&kind, "event_msg") && is_text(&payload, "task_complete") {
            self.close_turn();
        }
    }
}

/// Whether a result is what a reading ended with.
pub open spec fn is_result_of(result: CodexHomeParseResult, end: ReaderModel) -> bool {
    &&& candidate_models(result.candidates@) == end.candidates
    &&& result.last_line == end.last_line
    &&& text::opt_view(result.last_turn_id) == end.last_turn_id
    &&& result.malformed_lines == end.malformed
}

/// What a part of a log holds. A line without a time counts as said `now`.
pub fn parse_codex_home_log_slice_at(
    slice: &str,
    base_line: u64,
    base_offset: u64,
    now: &str,
) -> (res: CodexHomeParseResult)
    requires
        base_line + text::lines_of(slice@).len() <= u64::MAX,
        base_offset + lines_bytes(text::lines_of(slice@)) <= u64::MAX,
    ensures
        is_result_of(
            res,
            read_lines(
                ReaderModel::fresh(base_line as int, base_offset as int),
                text::lines_of(slice@),
                now@,
            ),
        ),
{
    let lines = text::lines(slice);
    let ghost all = text::lines_of(slice@);
    let ghost start = ReaderModel::fresh(base_line as int, base_offset as int);
    let mut reader = LogReader {
        result: CodexHomeParseResult {
            candidates: Vec::new(),
            last_line: 0,
            last_turn_id: None,
            malformed_lines: 0,
        },
        turn: None,
        line: base_line,
        offset: base_offset,
    };
    let mut i: usize = 0;
    proof {
        assert(reader@.candidates =~= start.candidates);
        assert(all.take(0) =~= Seq::empty());
        assert(reader@ == read_lines(start, all.take(0), now@));
    }
    while i < lines.len()
        invariant
            i <= lines.len(),
            all == text::views(lines@),
            start == ReaderModel::fresh(base_line as int, base_offset as int),
            base_line + all.len() <= u64::MAX,
            base_offset + lines_bytes(all) <= u64::MAX,
            reader@ == read_lines(start, all.take(i as int), now@),
        decreases lines.len() - i,
    {
        proof {
            lemma_read_counts(start, all.take(i as int), now@);
            lemma_lines_bytes(all, i as int);
            lemma_lines_bytes(all, i + 1);
            assert(all[i as int] == lines@[i as int]@);
            assert(all.take(i + 1).drop_last() =~= all.take(i as int));
            assert(all.take(i + 1).last() == all[i as int]);
        }
        let line = lines[i].as_str();
        let bytes = count_bytes(line);
        let document = json::parse_json(line);
        match &document {
            Some(document) => reader.read_document(Some(document), bytes, now),
            None => reader.read_document(None, bytes, now),
        }
        i += 1;
    }
    proof {
        assert(all.take(i as int) =~= all);
    }
    reader.result
}

/// What a part of a log holds. A line without a time counts as said at the time of the reading.
pub fn parse_codex_home_log_slice(slice: &str, base_line: u64, base_offset: u64) -> (res:
    CodexHomeParseResult)
    requires
        base_line + text::lines_of(slice@).len() <= u64::MAX,
        base_offset + lines_bytes(text::lines_of(slice@)) <= u64::MAX,
    ensures
        exists|now: Seq<char>|
            is_result_of(
                res,
                #[trigger] read_lines(
                    ReaderModel::fresh(base_line as int, base_offset as int),
                    text::lines_of(slice@),
                    now,
                ),
            ),
{
    let now = clock::now_iso();
    parse_codex_home_log_slice_at(slice, base_line, base_offset, now.as_str())
}

/// Whether a candidate of a turn may stand where it stands: a prompt that does not only set the
/// session up, or a reply right behind the prompt of its turn.
pub open spec fn is_in_place(candidates: Seq<CandidateModel>, i: int) -> bool {
    if candidates[i].role == TranscriptMirrorRole::User {
        !is_bootstrap(candidates[i].text)
    } else {
        i > 0 && candidates[i - 1].role == TranscriptMirrorRole::User && candidates[i - 1].turn_id
            == candidates[i].turn_id
    }
}

/// Whether the turn that is not complete holds a prompt and a reply of its own.
pub open spec fn is_proper_turn(turn: PendingModel) -> bool {
    &&& turn.user matches Some(user) ==> user.role == TranscriptMirrorRole::User && user.turn_id
        == turn.turn_id && !is_bootstrap(user.text)
    &&& turn.latest_assistant matches Some(assistant) ==> assistant.role
        == TranscriptMirrorRole::Assistant && assistant.turn_id == turn.turn_id
}

/// Whether all candidates stand in their place.
pub open spec fn is_proper(reader: ReaderModel) -> bool {
    &&& forall|i: int|
        0 <= i < reader.candidates.len() ==> #[trigger] is_in_place(reader.candidates, i)
    &&& reader.turn matches Some(turn) ==> is_proper_turn(turn)
}

/// A line leaves all candidates in their place.
proof fn lemma_line_keeps_place(
    reader: ReaderModel,
    document: Option<Map<Seq<char>, NodeModel>>,
    bytes: int,
    now: Seq<char>,
)
    requires
        is_proper(reader),
    ensures
        is_proper(reader.after(document, bytes, now)),
{
    let before = reader.candidates;
    let after = reader.after(document, bytes, now);
    reveal_strlit("user");
    reveal_strlit("assistant");
    assert("user"@.len() != "assistant"@.len());
    assert forall|i: int| 0 <= i < after.candidates.len() implies #[trigger] is_in_place(
        after.candidates,
        i,
    ) by {
        if i < before.len() {
            assert(is_in_place(before, i));
            assert(after.candidates[i] == before[i]);
            if i > 0 {
                assert(after.candidates[i - 1] == before[i - 1]);
            }
        }
    }
}

/// What is mirrored of a log comes in turns: a reply stands right behind the prompt that it
/// answers, and no prompt only sets the session up.
pub proof fn law_replies_follow_their_prompts(
    base_line: int,
    base_offset: int,
    lines: Seq<Seq<char>>,
    now: Seq<char>,
)
    ensures
        is_proper(read_lines(ReaderModel::fresh(base_line, base_offset), lines, now)),
    decreases lines.len(),
{
    if lines.len() > 0 {
        law_replies_follow_their_prompts(base_line, base_offset, lines.drop_last(), now);
        lemma_line_keeps_place(
            read_lines(ReaderModel::fresh(base_line, base_offset), lines.drop_last(), now),
            document_of(lines.last()),
            text::byte_len(lines.last()) as int,
            now,
        );
    }
}

/// Reading a log in one go or in two gives the same: the second part goes on where the first
/// ended.
pub proof fn law_logs_can_be_read_in_parts(
    start: ReaderModel,
    first: Seq<Seq<char>>,
    second: Seq<Seq<char>>,
    now: Seq<char>,
)
    ensures
        read_lines(start, first + second, now) == read_lines(
            read_lines(start, first, now),
            second,
            now,
        ),
    decreases second.len(),
{
    if second.len() == 0 {
        assert(first + second =~= first);
    } else {
        law_logs_can_be_read_in_parts(start, first, second.drop_last(), now);
        assert((first + second).drop_last() =~= first + second.drop_last());
        assert((first + second).last() == second.last());
    }
}

/// The workspace that the head of a log names.
pub open spec fn cwd_in(document: Option<Map<Seq<char>, NodeModel>>) -> Option<Seq<char>> {
    match document {
        Some(nodes) => if json::text_in(nodes, "/type"@) == Some("session_meta"@) {
            json::text_in(nodes, "/payload/cwd"@)
        } else {
            None
        },
        None => None,
    }
}

/// The workspace that the first head of a log names, from `from` on, that names one.
pub open spec fn first_cwd(lines: Seq<Seq<char>>, from: int) -> Option<Seq<char>>
    decreases lines.len() - from,
{
    if from < 0 || from >= lines.len() {
        None
    } else {
        match cwd_in(document_of(lines[from])) {
            Some(cwd) => Some(cwd),
            None => first_cwd(lines, from + 1),
        }
    }
}

/// The workspace that a document names, if it is the head of a log.
pub fn cwd_of_document(document: &Value) -> (res: Option<String>)
    ensures
        text::opt_view(res) == cwd_in(Some(json::json_nodes(*document))),
{
    let kind = json::text_at(document, "/type");
    if is_text(&kind, "session_meta") {
        json::text_at(document, "/payload/cwd")
    } else {
        None
    }
}

/// The workspace that a log names.
pub fn session_meta_cwd(content: &str) -> (res: Option<String>)
    ensures
        text::opt_view(res) == first_cwd(text::lines_of(content@), 0),
{
    let lines = text::lines(content);
    let ghost all = text::lines_of(content@);
    let mut i: usize = 0;
    while i < lines.len()
        invariant
            i <= lines.len(),
            all == text::views(lines@),
            all == text::lines_of(content@),
            first_cwd(all, 0) == first_cwd(all, i as int),
        decreases lines.len() - i,
    {
        proof {
            assert(all[i as int] == lines@[i as int]@);
        }
        if let Some(document) = json::parse_json(lines[i].as_str()) {
            if let Some(cwd) = cwd_of_document(&document) {
                return Some(cwd);
            }
        }
        i += 1;
    }
    None
}

/// Who began a session, as the head of its log says.
pub open spec fn makers_in(document: Option<Map<Seq<char>, NodeModel>>) -> Option<
    (Option<Seq<char>>, Option<Seq<char>>),
> {
    match document {
        Some(nodes) => if json::text_in(nodes, "/type"@) == Some("session_meta"@)
            && nodes.contains_key("/payload"@) {
            Some(
                (json::text_in(nodes, "/payload/source"@), json::text_in(nodes, "/payload/originator"@)),
            )
        } else {
            None
        },
        None => None,
    }
}

/// Who began a session, as the first head of its log says, from `from` on.
pub open spec fn first_makers(lines: Seq<Seq<char>>, from: int) -> (
    Option<Seq<char>>,
    Option<Seq<char>>,
)
    decreases lines.len() - from,
{
    if from < 0 || from >= lines.len() {
        (None, None)
    } else {
        match makers_in(document_of(lines[from])) {
            Some(makers) => makers,
            None => first_makers(lines, from + 1),
        }
    }
}

/// Who began a session, as its log says: the source and the originator.
pub fn session_meta_source_originator(content: &str) -> (res: (Option<String>, Option<String>))
    ensures
        (text::opt_view(res.0), text::opt_view(res.1)) == first_makers(
            text::lines_of(content@),
            0,
        ),
{
    let lines = text::lines(content);
    let ghost all = text::lines_of(content@);
    let mut i: usize = 0;
    while i < lines.len()
        invariant
            i <= lines.len(),
            all == text::views(lines@),
            all == text::lines_of(content@),
            first_makers(all, 0) == first_makers(all, i as int),
        decreases lines.len() - i,
    {
        proof {
            assert(all[i as int] == lines@[i as int]@);
        }
        if let Some(document) = json::parse_json(lines[i].as_str()) {
            let kind = json::text_at(&document, "/type");
            if is_text(&kind, "session_meta") && json::node_at(&document, "/payload").is_some() {
                let source = json::text_at(&document, "/payload/source");
                let originator = json::text_at(&document, "/payload/originator");
                return (source, originator);
            }
        }
        i += 1;
    }
    (None, None)
}

/// Whether a file is a log of a session.
pub fn is_session_log_name(file_name: &str, session_id: &str) -> (res: bool)
    ensures
        res == ("rollout-"@.is_prefix_of(file_name@) && ".jsonl"@.is_suffix_of(file_name@)
            && text::contains(file_name@, session_id@)),
{
    text::starts_with(file_name, "rollout-") && text::ends_with(file_name, ".jsonl")
        && text::has_text(file_name, session_id)
}

/// Whether a path is that of a log of a session.
pub open spec fn is_log_of(path: Seq<char>, session_id: Seq<char>) -> bool {
    match paths::file_name_of(path) {
        Some(name) => "rollout-"@.is_prefix_of(name) && ".jsonl"@.is_suffix_of(name)
            && text::contains(name, session_id),
        None => false,
    }
}

/// Whether a path is the first, in the order of paths, of those in a list that are logs of a
/// session.
pub open spec fn is_first_log(
    files: Seq<Seq<char>>,
    session_id: Seq<char>,
    path: Seq<char>,
) -> bool {
    &&& files.contains(path)
    &&& is_log_of(path, session_id)
    &&& forall|i: int|
        0 <= i < files.len() && is_log_of(#[trigger] files[i], session_id)
            ==> !paths::path_before(files[i], path)
}

/// The first log of a session in a list of files.
pub fn first_session_log(files: &Vec<String>, session_id: &str) -> (res: Option<String>)
    ensures
        match res {
            Some(path) => is_first_log(text::views(files@), session_id@, path@),
            None => forall|i: int|
                0 <= i < files@.len() ==> !is_log_of(
                    #[trigger] text::views(files@)[i],
                    session_id@,
                ),
        },
{
    let ghost all = text::views(files@);
    let mut best: Option<String> = None;
    let mut i: usize = 0;
    while i < files.len()
        invariant
            i <= files.len(),
            all == text::views(files@),
            match best {
                Some(path) => {
                    &&& all.contains(path@)
                    &&& is_log_of(path@, session_id@)
                    &&& forall|k: int|
                        0 <= k < i && is_log_of(#[trigger] all[k], session_id@)
                            ==> !paths::path_before(all[k], path@)
                },
                None => forall|k: int|
                    0 <= k < i ==> !is_log_of(#[trigger] all[k], session_id@),
            },
        decreases files.len() - i,
    {
        let path = files[i].as_str();
        proof {
            assert(all[i as int] == path@);
            paths::lemma_component_order(paths::components_of(path@), paths::components_of(path@));
        }
        let is_log = match paths::file_name(path) {
            Some(name) => is_session_log_name(name.as_str(), session_id),
            None => false,
        };
        if is_log {
            let earlier = match &best {
                Some(known) => paths::comes_before(path, known.as_str()),
                None => true,
            };
            if earlier {
                proof {
                    assert forall|k: int|
                        0 <= k < i + 1 && is_log_of(#[trigger] all[k], session_id@) implies
                        !paths::path_before(all[k], path@) by {
                        if k < i && paths::path_before(all[k], path@) {
                            paths::lemma_component_order_transitive(
                                paths::components_of(all[k]),
                                paths::components_of(path@),
                                paths::components_of(best->0@),
                            );
                        }
                    }
                }
                best = Some(path.to_owned());
            }
        }
        i += 1;
    }
    best
}

/// The log of a session: the first among the files of the sessions at work, or else the first
/// among those that were archived.
pub fn choose_session_log(
    sessions: &Vec<String>,
    archived_sessions: &Vec<String>,
    session_id: &str,
) -> (res: Option<String>)
    ensures
        match res {
            Some(path) => is_first_log(text::views(sessions@), session_id@, path@) || ((forall|
                i: int,
            |
                0 <= i < sessions@.len() ==> !is_log_of(
                    #[trigger] text::views(sessions@)[i],
                    session_id@,
                )) && is_first_log(text::views(archived_sessions@), session_id@, path@)),
            None => {
                &&& forall|i: int|
                    0 <= i < sessions@.len() ==> !is_log_of(
                        #[trigger] text::views(sessions@)[i],
                        session_id@,
                    )
                &&& forall|i: int|
                    0 <= i < archived_sessions@.len() ==> !is_log_of(
                        #[trigger] text::views(archived_sessions@)[i],
                        session_id@,
                    )
            },
        },
{
    match first_session_log(sessions, session_id) {
        Some(path) => Some(path),
        None => first_session_log(archived_sessions, session_id),
    }
}

/// Whether an index of sessions, as far as it goes, names a session.
pub open spec fn index_names(lines: Seq<Seq<char>>, session_id: Seq<char>) -> bool {
    exists|i: int| 0 <= i < lines.len() && #[trigger] text::contains(lines[i], session_id)
}

/// Whether an index of sessions names a session.
pub fn session_index_contains(index: &str, session_id: &str) -> (res: bool)
    ensures
        res == index_names(text::lines_of(index@), session_id@),
{
    let lines = text::lines(index);
    let ghost all = text::lines_of(index@);
    let mut i: usize = 0;
    while i < lines.len()
        invariant
            i <= lines.len(),
            all == text::views(lines@),
            all == text::lines_of(index@),
            forall|k: int| 0 <= k < i ==> !#[trigger] text::contains(all[k], session_id@),
        decreases lines.len() - i,
    {
        proof {
            assert(all[i as int] == lines@[i as int]@);
        }
        if text::has_text(lines[i].as_str(), session_id) {
            proof {
                assert(text::contains(all[i as int], session_id@));
            }
            return true;
        }
        i += 1;
    }
    false
}

/// Where the Codex home is: where it is said to be, or else below the home of the user.
pub fn codex_home_dir(codex_home: Option<&str>, home: Option<&str>) -> (res: String)
    ensures
        res@ == match codex_home {
            Some(codex_home) => codex_home@,
            None => match home {
                Some(home) => paths::below(home@, ".codex"@),
                None => ".codex"@,
            },
        },
{
    match codex_home {
        Some(codex_home) => codex_home.to_owned(),
        None => match home {
            Some(home) => paths::join(home, ".codex"),
            None => ".codex".to_owned(),
        },
    }
}

/// Whether logs are mirrored: unless that is switched off.
pub fn codex_home_mirror_enabled(setting: Option<&str>) -> (res: bool)
    ensures
        res == match setting {
            Some(setting) => {
                let word = text::ascii_lowercase(text::trimmed(setting@));
                !(word == "0"@ || word == "false"@ || word == "off"@ || word == "no"@)
            },
            None => true,
        },
{
    match setting {
        Some(setting) => {
            let word = text::to_ascii_lowercase(text::trim(setting));
            let word = word.as_str();
            !(text::same_text(word, "0") || text::same_text(word, "false") || text::same_text(
                word,
                "off",
            ) || text::same_text(word, "no"))
        },
        None => true,
    }
}

/// Whether the session of a binding is mirrored: one of a healthy binding in a workspace.
pub fn binding_is_eligible(metadata: &ThreadMetadata, binding: &SessionBinding) -> (res: bool)
    ensures
        res == (thread_state::binding_status_of(Some(binding@)) == BindingStatus::Healthy
            && binding@.current_codex_thread_id is Some && binding@.workspace_cwd is Some),
{
    thread_state::resolve_binding_status(metadata, Some(binding)) == BindingStatus::Healthy
        && binding.current_codex_thread_id.is_some() && binding.workspace_cwd.is_some()
}

/// Whether an entry is something that was said to an end in a session.
pub open spec fn is_final_of(entry: EntryModel, session_id: Seq<char>) -> bool {
    entry.session_id == session_id && entry.delivery == TranscriptMirrorDelivery::Final
}

/// Whether a time is the latest at which something was said to an end in a session.
pub open spec fn is_latest(
    entries: Seq<TranscriptMirrorEntry>,
    session_id: Seq<char>,
    latest: Option<Seq<char>>,
) -> bool {
    match latest {
        Some(latest) => {
            &&& exists|i: int|
                0 <= i < entries.len() && #[trigger] is_final_of(entries[i]@, session_id)
                    && entries[i]@.timestamp == latest
            &&& forall|i: int|
                0 <= i < entries.len() && #[trigger] is_final_of(entries[i]@, session_id)
                    ==> !text::text_before(latest, entries[i]@.timestamp)
        },
        None => forall|i: int|
            0 <= i < entries.len() ==> !#[trigger] is_final_of(entries[i]@, session_id),
    }
}

/// The latest time at which something was said to an end in a session.
pub fn latest_transcript_final_timestamp(
    entries: &Vec<TranscriptMirrorEntry>,
    session_id: &str,
) -> (res: Option<String>)
    ensures
        is_latest(entries@, session_id@, text::opt_view(res)),
{
    let mut latest: Option<String> = None;
    let mut i: usize = 0;
    proof {
        assert(entries@.take(0) =~= Seq::empty());
    }
    while i < entries.len()
        invariant
            i <= entries.len(),
            is_latest(entries@.take(i as int), session_id@, text::opt_view(latest)),
        decreases entries.len() - i,
    {
        let ghost before = entries@.take(i as int);
        let ghost after = entries@.take(i + 1);
        let ghost was = text::opt_view(latest);
        proof {
            assert(after =~= before.push(entries@[i as int]));
            assert(after[i as int] == entries@[i as int]);
        }
        let entry = &entries[i];
        if text::same_text(entry.session_id.as_str(), session_id) && entry.delivery
            == TranscriptMirrorDelivery::Final {
            proof {
                assert(is_final_of(after[i as int]@, session_id@));
            }
            let is_later = match &latest {
                Some(latest) => text::comes_before(latest.as_str(), entry.timestamp.as_str()),
                None => true,
            };
            if is_later {
                latest = Some(entry.timestamp.clone());
            }
        }
        proof {
            lemma_latest_pushed(before, entries@[i as int], session_id@, was);
        }
        i += 1;
    }
    proof {
        assert(entries@.take(i as int) =~= entries@);
    }
    latest
}

/// What one more entry does to the latest time.
proof fn lemma_latest_pushed(
    entries: Seq<TranscriptMirrorEntry>,
    entry: TranscriptMirrorEntry,
    session_id: Seq<char>,
    latest: Option<Seq<char>>,
)
    requires
        is_latest(entries, session_id, latest),
    ensures
        is_latest(
            entries.push(entry),
            session_id,
            if is_final_of(entry@, session_id) && (latest is None || text::text_before(
                latest->0,
                entry@.timestamp,
            )) {
                Some(entry@.timestamp)
            } else {
                latest
            },
        ),
{
    let more = entries.push(entry);
    let n = entries.len() as int;
    assert(more[n] == entry);
    assert forall|i: int| 0 <= i < n implies more[i] == entries[i] by {}
    if is_final_of(entry@, session_id) && (latest is None || text::text_before(
        latest->0,
        entry@.timestamp,
    )) {
        assert(is_final_of(more[n]@, session_id));
        text::lemma_text_order(entry@.timestamp, entry@.timestamp);
        assert forall|i: int|
            0 <= i < more.len() && #[trigger] is_final_of(
                more[i]@,
                session_id,
            ) implies !text::text_before(entry@.timestamp, more[i]@.timestamp) by {
            if i < n {
                assert(is_final_of(entries[i]@, session_id));
                text::lemma_text_order(entry@.timestamp, entries[i]@.timestamp);
                if text::text_before(entry@.timestamp, entries[i]@.timestamp) {
                    text::lemma_text_order_transitive(
                        latest->0,
                        entry@.timestamp,
                        entries[i]@.timestamp,
                    );
                }
            }
        }
    } else if latest is Some {
        let k = choose|i: int|
            0 <= i < entries.len() && #[trigger] is_final_of(entries[i]@, session_id)
                && entries[i]@.timestamp == latest->0;
        assert(is_final_of(more[k]@, session_id) && more[k]@.timestamp == latest->0);
        assert forall|i: int|
            0 <= i < more.len() && #[trigger] is_final_of(
                more[i]@,
                session_id,
            ) implies !text::text_before(latest->0, more[i]@.timestamp) by {
            if i < n {
                assert(is_final_of(entries[i]@, session_id));
            }
        }
    } else {
        assert forall|i: int| 0 <= i < more.len() implies !#[trigger] is_final_of(
            more[i]@,
            session_id,
        ) by {
            if i < n {
                assert(!is_final_of(entries[i]@, session_id));
            }
        }
    }
}

/// What a transcript gets of a candidate.
pub fn candidate_entry(candidate: &CodexHomeMirrorCandidate, session_id: &str) -> (res:
    TranscriptMirrorEntry)
    ensures
        res@ == (EntryModel {
            timestamp: candidate@.timestamp,
            session_id: session_id@,
            turn_id: Some(candidate@.turn_id),
            origin: TranscriptMirrorOrigin::Local,
            role: candidate.role,
            delivery: TranscriptMirrorDelivery::Final,
            phase: None,
            text: candidate@.text,
        }),
{
    TranscriptMirrorEntry {
        timestamp: candidate.timestamp.clone(),
        session_id: session_id.to_owned(),
        turn_id: Some(candidate.turn_id.clone()),
        origin: TranscriptMirrorOrigin::Local,
        role: candidate.role,
        delivery: TranscriptMirrorDelivery::Final,
        phase: None,
        text: candidate.text.clone(),
    }
}

/// A prompt as it is shown.
pub fn echo_text(candidate: &CodexHomeMirrorCandidate) -> (res: String)
    ensures
        res@ == telegram_runtime::prefixed("›"@, candidate@.text),
{
    telegram_runtime::format_prefixed_text("›", candidate.text.as_str())
}

/// How far the mirroring of a candidate has come.
#[derive(Debug, Clone, Copy, PartialEq, Eq, Structural)]
pub enum CandidateStage {
    Claiming { role: TranscriptMirrorRole },
    Appending { role: TranscriptMirrorRole },
    CommittingSkip,
    Sending,
    Committing,
    Finished,
}

/// What came of a step.
#[derive(Debug)]
pub enum CandidateEvent {
    Done,
    /// Whether the delivery is this one's to make.
    Claimed { claimed: bool },
    /// Whether the entry is new to the transcript.
    Inserted { inserted: bool },
    Failed(String),
}

/// What is to be done next.
#[derive(Debug)]
pub enum CandidateStep {
    /// Claim the delivery, of a prompt or of a reply.
    Claim { role: TranscriptMirrorRole },
    Append,
    /// Put on record that there was nothing to deliver.
    CommitSkip,
    /// Show the prompt.
    SendEcho,
    /// Send the reply.
    SendReply,
    Commit,
    Finish { outcome: Result<(), FlowError> },
}

/// The first step of the mirroring of a candidate.
pub fn begin_candidate(role: TranscriptMirrorRole) -> (res: (CandidateStage, CandidateStep))
    ensures
        res == (CandidateStage::Claiming { role }, CandidateStep::Claim { role }),
{
    (CandidateStage::Claiming { role }, CandidateStep::Claim { role })
}

/// The end of the mirroring of a candidate.
pub open spec fn candidate_ended(outcome: Result<(), FlowError>) -> (CandidateStage, CandidateStep) {
    (CandidateStage::Finished, CandidateStep::Finish { outcome })
}

fn end_candidate(outcome: Result<(), FlowError>) -> (res: (CandidateStage, CandidateStep))
    ensures
        res == candidate_ended(outcome),
{
    (CandidateStage::Finished, CandidateStep::Finish { outcome })
}

/// What follows from an event.
pub open spec fn candidate_next(stage: CandidateStage, event: CandidateEvent) -> (CandidateStage, CandidateStep) {
    match (stage, event) {
        (CandidateStage::Finished, _) => candidate_ended(Err(FlowError::OutOfTurn)),
        (CandidateStage::CommittingSkip, _) => candidate_ended(Ok(())),
        (CandidateStage::Committing, _) => candidate_ended(Ok(())),
        (_, CandidateEvent::Failed(reason)) => candidate_ended(Err(FlowError::Outside(reason))),
        (CandidateStage::Claiming { role }, CandidateEvent::Claimed { claimed }) => if claimed {
            (CandidateStage::Appending { role }, CandidateStep::Append)
        } else {
            candidate_ended(Ok(()))
        },
        (CandidateStage::Appending { role }, CandidateEvent::Inserted { inserted }) => if !inserted {
            (CandidateStage::CommittingSkip, CandidateStep::CommitSkip)
        } else if role == TranscriptMirrorRole::User {
            (CandidateStage::Sending, CandidateStep::SendEcho)
        } else {
            (CandidateStage::Sending, CandidateStep::SendReply)
        },
        (CandidateStage::Sending, CandidateEvent::Done) => (
            CandidateStage::Committing,
            CandidateStep::Commit,
        ),
        _ => candidate_ended(Err(FlowError::OutOfTurn)),
    }
}

/// The next step of the mirroring of a candidate.
pub fn advance_candidate(stage: CandidateStage, event: CandidateEvent) -> (res: (CandidateStage, CandidateStep))
    ensures
        res == candidate_next(stage, event),
{
    match (stage, event) {
        (CandidateStage::Finished, _) => end_candidate(Err(FlowError::OutOfTurn)),
        (CandidateStage::CommittingSkip, _) => end_candidate(Ok(())),
        (CandidateStage::Committing, _) => end_candidate(Ok(())),
        (_, CandidateEvent::Failed(reason)) => end_candidate(Err(FlowError::Outside(reason))),
        (CandidateStage::Claiming { role }, CandidateEvent::Claimed { claimed }) => if claimed {
            (CandidateStage::Appending { role }, CandidateStep::Append)
        } else {
            end_candidate(Ok(()))
        },
        (CandidateStage::Appending { role }, CandidateEvent::Inserted { inserted }) => if !inserted {
            (CandidateStage::CommittingSkip, CandidateStep::CommitSkip)
        } else if role == TranscriptMirrorRole::User {
            (CandidateStage::Sending, CandidateStep::SendEcho)
        } else {
            (CandidateStage::Sending, CandidateStep::SendReply)
        },
        (CandidateStage::Sending, CandidateEvent::Done) => (
            CandidateStage::Committing,
            CandidateStep::Commit,
        ),
        _ => end_candidate(Err(FlowError::OutOfTurn)),
    }
}

/// How many steps the mirroring of a candidate can still take.
pub open spec fn candidate_steps_left(stage: CandidateStage) -> nat {
    match stage {
        CandidateStage::Claiming { .. } => 4,
        CandidateStage::Appending { .. } => 3,
        CandidateStage::CommittingSkip => 1,
        CandidateStage::Sending => 2,
        CandidateStage::Committing => 1,
        CandidateStage::Finished => 0,
    }
}

/// Whatever comes of its steps, the mirroring of a candidate ends.
pub proof fn law_candidate_ends(stage: CandidateStage, event: CandidateEvent)
    ensures
        candidate_next(stage, event).1 is Finish <==> candidate_next(stage, event).0 is Finished,
        stage !is Finished ==> candidate_steps_left(candidate_next(stage, event).0) < candidate_steps_left(stage),
        stage is Finished ==> candidate_next(stage, event).0 is Finished,
{
}

/// A candidate is shown only if its delivery was claimed and it is new to the transcript.
pub proof fn law_candidates_are_shown_once(stage: CandidateStage, event: CandidateEvent)
    ensures
        candidate_next(stage, event).1 is SendEcho || candidate_next(stage, event).1 is SendReply
            ==> stage is Appending && event == (CandidateEvent::Inserted { inserted: true }),
        candidate_next(stage, event).0 is Appending ==> stage is Claiming && event == (
        CandidateEvent::Claimed { claimed: true }),
{
}

/// Why a session was not mirrored.
#[derive(Debug, Clone, PartialEq, Eq)]
pub enum HomeSyncError {
    /// A step outside failed, for the reason given.
    Outside(String),
    NotLocated,
    /// The log is of another workspace.
    WrongWorkspace { log_cwd: String },
    /// No character begins where the reading is to go on.
    BadOffset { offset: u64, path: String },
    /// Something was reported that was not asked for.
    OutOfTurn,
}

impl HomeSyncError {
    /// The reason, in words.
    pub open spec fn message(self, session_id: Seq<char>, workspace_cwd: Seq<char>) -> Seq<char> {
        match self {
            HomeSyncError::Outside(reason) => reason@,
            HomeSyncError::NotLocated => "failed to locate Codex home session log for "@
                + session_id,
            HomeSyncError::WrongWorkspace { log_cwd } => "Codex home session cwd mismatch for "@
                + session_id + ": log cwd "@ + log_cwd@ + " != binding cwd "@ + workspace_cwd,
            HomeSyncError::BadOffset { offset, path } => "cursor offset "@ + text::decimal(
                offset as nat,
            ) + " is not a valid utf8 boundary for "@ + path@,
            HomeSyncError::OutOfTurn => "a step was reported that was not asked for"@,
        }
    }

    /// The reason, in words.
    pub fn to_text(&self, session_id: &str, workspace_cwd: &str) -> (res: String)
        ensures
            res@ == self.message(session_id@, workspace_cwd@),
    {
        match self {
            HomeSyncError::Outside(reason) => reason.clone(),
            HomeSyncError::NotLocated => text::concat2(
                "failed to locate Codex home session log for ",
                session_id,
            ),
            HomeSyncError::WrongWorkspace { log_cwd } => {
                let mut said = text::concat5(
                    "Codex home session cwd mismatch for ",
                    session_id,
                    ": log cwd ",
                    log_cwd.as_str(),
                    " != binding cwd ",
                );
                said.push_str(workspace_cwd);
                said
            },
            HomeSyncError::BadOffset { offset, path } => {
                let offset = text::decimal_text(*offset);
                text::concat4(
                    "cursor offset ",
                    offset.as_str(),
                    " is not a valid utf8 boundary for ",
                    path.as_str(),
                )
            },
            HomeSyncError::OutOfTurn => "a step was reported that was not asked for".to_owned(),
        }
    }
}

/// What a cursor becomes once a log was read.
#[derive(Debug)]
pub enum CursorGoal {
    /// The log was read to its end.
    Read { log_path: String, len: u64 },
    /// The log was read anew, and the cursor stays where it is.
    Recheck { cursor: CodexHomeMirrorCursor },
}

/// What is noted about lines that could not be read.
pub open spec fn malformed_note(malformed_lines: u64) -> Option<Seq<char>> {
    if malformed_lines > 0 {
        Some("malformed_jsonl_lines="@ + text::decimal(malformed_lines as nat))
    } else {
        None
    }
}

fn note_malformed(malformed_lines: u64) -> (res: Option<String>)
    ensures
        text::opt_view(res) == malformed_note(malformed_lines),
{
    if malformed_lines > 0 {
        let count = text::decimal_text(malformed_lines);
        Some(text::concat2("malformed_jsonl_lines=", count.as_str()))
    } else {
        None
    }
}

/// The cursor once a log was read.
pub fn cursor_after(
    goal: CursorGoal,
    result: &CodexHomeParseResult,
    thread_key: &str,
    session_id: &str,
    now: String,
) -> (res: CodexHomeMirrorCursor)
    ensures
        res.updated_at == now,
        text::opt_view(res.last_error) == malformed_note(result.malformed_lines),
        res.last_turn_id == result.last_turn_id,
        match goal {
            CursorGoal::Read { log_path, len } => {
                &&& res.thread_key@ == thread_key@
                &&& res.session_id@ == session_id@
                &&& res.log_path == log_path
                &&& res.last_offset == len
                &&& res.last_line == result.last_line
            },
            CursorGoal::Recheck { cursor } => {
                &&& res.thread_key == cursor.thread_key
                &&& res.session_id == cursor.session_id
                &&& res.log_path == cursor.log_path
                &&& res.last_offset == cursor.last_offset
                &&& res.last_line == cursor.last_line
            },
        },
{
    let last_error = note_malformed(result.malformed_lines);
    let last_turn_id = text::clone_opt(&result.last_turn_id);
    match goal {
        CursorGoal::Read { log_path, len } => CodexHomeMirrorCursor {
            thread_key: thread_key.to_owned(),
            session_id: session_id.to_owned(),
            log_path,
            last_offset: len,
            last_line: result.last_line,
            last_turn_id,
            updated_at: now,
            last_error,
        },
        CursorGoal::Recheck { cursor } => CodexHomeMirrorCursor {
            thread_key: cursor.thread_key,
            session_id: cursor.session_id,
            log_path: cursor.log_path,
            last_offset: cursor.last_offset,
            last_line: cursor.last_line,
            last_turn_id,
            updated_at: now,
            last_error,
        },
    }
}

/// The cursor once its log has become shorter: it goes back to the end of the log.
pub fn shrunk_cursor(cursor: CodexHomeMirrorCursor, len: u64, now: String) -> (res:
    CodexHomeMirrorCursor)
    ensures
        res.thread_key == cursor.thread_key,
        res.session_id == cursor.session_id,
        res.log_path == cursor.log_path,
        res.last_offset == len,
        res.last_line == cursor.last_line,
        res.last_turn_id == cursor.last_turn_id,
        res.updated_at == now,
        text::opt_view(res.last_error) == Some("log_shrank"@),
{
    CodexHomeMirrorCursor {
        thread_key: cursor.thread_key,
        session_id: cursor.session_id,
        log_path: cursor.log_path,
        last_offset: len,
        last_line: cursor.last_line,
        last_turn_id: cursor.last_turn_id,
        updated_at: now,
        last_error: Some("log_shrank".to_owned()),
    }
}

/// The cursor once the mirroring has failed: it stays where it is, or stands at the beginning.
pub fn failed_cursor(
    cursor: Option<CodexHomeMirrorCursor>,
    thread_key: &str,
    session_id: &str,
    error: String,
    now: String,
) -> (res: CodexHomeMirrorCursor)
    ensures
        res.updated_at == now,
        res.last_error == Some(error),
        match cursor {
            Some(cursor) => {
                &&& res.thread_key == cursor.thread_key
                &&& res.session_id == cursor.session_id
                &&& res.log_path == cursor.log_path
                &&& res.last_offset == cursor.last_offset
                &&& res.last_line == cursor.last_line
                &&& res.last_turn_id == cursor.last_turn_id
            },
            None => {
                &&& res.thread_key@ == thread_key@
                &&& res.session_id@ == session_id@
                &&& res.log_path@ == Seq::<char>::empty()
                &&& res.last_offset == 0
                &&& res.last_line == 0
                &&& res.last_turn_id is None
            },
        },
{
    match cursor {
        Some(cursor) => CodexHomeMirrorCursor {
            thread_key: cursor.thread_key,
            session_id: cursor.session_id,
            log_path: cursor.log_path,
            last_offset: cursor.last_offset,
            last_line: cursor.last_line,
            last_turn_id: cursor.last_turn_id,
            updated_at: now,
            last_error: Some(error),
        },
        None => CodexHomeMirrorCursor {
            thread_key: thread_key.to_owned(),
            session_id: session_id.to_owned(),
            log_path: String::new(),
            last_offset: 0,
            last_line: 0,
            last_turn_id: None,
            updated_at: now,
            last_error: Some(error),
        },
    }
}

/// How far the mirroring of a session has come.
#[derive(Debug)]
pub enum HomeSyncStage {
    Locating,
    ReadingCursor { log: CodexHomeSessionLog },
    /// The whole log is read.
    ReadingAll { goal: CursorGoal },
    ReadingWatermark { goal: CursorGoal, result: CodexHomeParseResult },
    /// The log is read from where its cursor stands.
    ReadingOn { goal: CursorGoal, offset: u64, path: String },
    /// The candidate at `index` is mirrored; with a watermark, only what is after it is.
    Mirroring {
        goal: CursorGoal,
        result: CodexHomeParseResult,
        watermark: Option<String>,
        index: usize,
    },
    Last,
    Finished,
}

/// What came of a step.
#[derive(Debug)]
pub enum HomeSyncEvent {
    Done,
    /// The log of the session, and whether it is of the workspace of the binding.
    Located { log: CodexHomeSessionLog, same_workspace: bool },
    Cursor(Option<CodexHomeMirrorCursor>),
    /// What was read.
    Parsed(CodexHomeParseResult),
    /// No character begins where the reading is to go on.
    BadOffset,
    /// The latest time at which something was said to an end, as the transcript has it.
    Watermark(Option<String>),
    Failed(String),
}

/// What is to be done next.
#[derive(Debug)]
pub enum HomeSyncStep {
    Locate,
    ReadCursor,
    /// Read the whole log.
    ReadAll,
    /// Read the log on from a line and an offset.
    ReadOn { line: u64, offset: u64 },
    ReadWatermark,
    /// Mirror the candidate at `index`.
    Mirror { index: usize },
    WriteCursor { goal: CursorGoal, result: CodexHomeParseResult },
    WriteShrunk { cursor: CodexHomeMirrorCursor, len: u64 },
    Finish { outcome: Result<(), HomeSyncError> },
}

/// The first step of the mirroring of a session.
pub fn begin_home_sync() -> (res: (HomeSyncStage, HomeSyncStep))
    ensures
        res == (HomeSyncStage::Locating, HomeSyncStep::Locate),
{
    (HomeSyncStage::Locating, HomeSyncStep::Locate)
}

/// What follows from the cursor of a session: a log that is new is read whole, a log that has
/// become shorter is passed over, one that is as it was is read again only while no turn is known,
/// and one that has grown is read on.
pub open spec fn home_sync_cursor(
    log: CodexHomeSessionLog,
    cursor: Option<CodexHomeMirrorCursor>,
) -> (HomeSyncStage, HomeSyncStep) {
    match cursor {
        Some(cursor) => if cursor.log_path@ != log.path@ {
            (
                HomeSyncStage::ReadingAll {
                    goal: CursorGoal::Read { log_path: log.path, len: log.len },
                },
                HomeSyncStep::ReadAll,
            )
        } else if log.len < cursor.last_offset {
            (HomeSyncStage::Last, HomeSyncStep::WriteShrunk { cursor, len: log.len })
        } else if log.len == cursor.last_offset {
            if cursor.last_turn_id is None {
                (
                    HomeSyncStage::ReadingAll { goal: CursorGoal::Recheck { cursor } },
                    HomeSyncStep::ReadAll,
                )
            } else {
                home_sync_ended(Ok(()))
            }
        } else {
            (
                HomeSyncStage::ReadingOn {
                    goal: CursorGoal::Read { log_path: log.path, len: log.len },
                    offset: cursor.last_offset,
                    path: log.path,
                },
                HomeSyncStep::ReadOn { line: cursor.last_line, offset: cursor.last_offset },
            )
        },
        None => (
            HomeSyncStage::ReadingAll {
                goal: CursorGoal::Read { log_path: log.path, len: log.len },
            },
            HomeSyncStep::ReadAll,
        ),
    }
}

fn on_home_cursor(log: CodexHomeSessionLog, cursor: Option<CodexHomeMirrorCursor>) -> (res: (
    HomeSyncStage,
    HomeSyncStep,
))
    ensures
        res == home_sync_cursor(log, cursor),
{
    match cursor {
        Some(cursor) => {
            if !text::same_text(cursor.log_path.as_str(), log.path.as_str()) {
                (
                    HomeSyncStage::ReadingAll {
                        goal: CursorGoal::Read { log_path: log.path, len: log.len },
                    },
                    HomeSyncStep::ReadAll,
                )
            } else if log.len < cursor.last_offset {
                (HomeSyncStage::Last, HomeSyncStep::WriteShrunk { cursor, len: log.len })
            } else if log.len == cursor.last_offset {
                if cursor.last_turn_id.is_none() {
                    (
                        HomeSyncStage::ReadingAll { goal: CursorGoal::Recheck { cursor } },
                        HomeSyncStep::ReadAll,
                    )
                } else {
                    end_home_sync(Ok(()))
                }
            } else {
                (
                    HomeSyncStage::ReadingOn {
                        goal: CursorGoal::Read { log_path: log.path.clone(), len: log.len },
                        offset: cursor.last_offset,
                        path: log.path,
                    },
                    HomeSyncStep::ReadOn { line: cursor.last_line, offset: cursor.last_offset },
                )
            }
        },
        None => (
            HomeSyncStage::ReadingAll {
                goal: CursorGoal::Read { log_path: log.path, len: log.len },
            },
            HomeSyncStep::ReadAll,
        ),
    }
}

/// Whether a candidate is mirrored: where there is a watermark, only if it is after it.
pub open spec fn is_due(candidate: CodexHomeMirrorCandidate, watermark: Option<String>) -> bool {
    match watermark {
        Some(watermark) => clock::is_after(
            candidate.timestamp@,
            clock::rfc3339_instant(candidate.timestamp@),
            watermark@,
            clock::rfc3339_instant(watermark@),
        ),
        None => true,
    }
}

/// The first candidate, from `from` on, that is mirrored.
pub open spec fn next_due(
    candidates: Seq<CodexHomeMirrorCandidate>,
    watermark: Option<String>,
    from: int,
) -> Option<int>
    decreases candidates.len() - from,
{
    if from < 0 || from >= candidates.len() {
        None
    } else if is_due(candidates[from], watermark) {
        Some(from)
    } else {
        next_due(candidates, watermark, from + 1)
    }
}

/// What follows for the candidates from `from` on.
pub open spec fn home_sync_from(
    goal: CursorGoal,
    result: CodexHomeParseResult,
    watermark: Option<String>,
    from: int,
) -> (HomeSyncStage, HomeSyncStep) {
    match next_due(result.candidates@, watermark, from) {
        Some(index) => (
            HomeSyncStage::Mirroring { goal, result, watermark, index: index as usize },
            HomeSyncStep::Mirror { index: index as usize },
        ),
        None => (HomeSyncStage::Last, HomeSyncStep::WriteCursor { goal, result }),
    }
}

fn mirror_from(
    goal: CursorGoal,
    result: CodexHomeParseResult,
    watermark: Option<String>,
    from: usize,
) -> (res: (HomeSyncStage, HomeSyncStep))
    ensures
        res == home_sync_from(goal, result, watermark, from as int),
{
    let mut index: usize = from;
    while index < result.candidates.len()
        invariant
            next_due(result.candidates@, watermark, from as int) == next_due(
                result.candidates@,
                watermark,
                index as int,
            ),
        decreases result.candidates.len() - index,
    {
        let due = match &watermark {
            Some(watermark) => timestamp_is_after(
                result.candidates[index].timestamp.as_str(),
                watermark.as_str(),
            ),
            None => true,
        };
        if due {
            return (
                HomeSyncStage::Mirroring { goal, result, watermark, index },
                HomeSyncStep::Mirror { index },
            );
        }
        index += 1;
    }
    (HomeSyncStage::Last, HomeSyncStep::WriteCursor { goal, result })
}

/// What follows once a candidate was mirrored.
pub open spec fn home_sync_behind(
    goal: CursorGoal,
    result: CodexHomeParseResult,
    watermark: Option<String>,
    index: usize,
) -> (HomeSyncStage, HomeSyncStep) {
    home_sync_from(goal, result, watermark, index + 1)
}

fn mirror_behind(
    goal: CursorGoal,
    result: CodexHomeParseResult,
    watermark: Option<String>,
    index: usize,
) -> (res: (HomeSyncStage, HomeSyncStep))
    ensures
        res == home_sync_behind(goal, result, watermark, index),
{
    if index < result.candidates.len() {
        mirror_from(goal, result, watermark, index + 1)
    } else {
        (HomeSyncStage::Last, HomeSyncStep::WriteCursor { goal, result })
    }
}

/// What follows from the watermark of a transcript: without one, nothing is mirrored.
pub open spec fn home_sync_marked(
    goal: CursorGoal,
    result: CodexHomeParseResult,
    watermark: Option<String>,
) -> (HomeSyncStage, HomeSyncStep) {
    if watermark is Some {
        home_sync_from(goal, result, watermark, 0)
    } else {
        (HomeSyncStage::Last, HomeSyncStep::WriteCursor { goal, result })
    }
}

fn on_watermark(goal: CursorGoal, result: CodexHomeParseResult, watermark: Option<String>) -> (res: (
    HomeSyncStage,
    HomeSyncStep,
))
    ensures
        res == home_sync_marked(goal, result, watermark),
{
    if watermark.is_some() {
        mirror_from(goal, result, watermark, 0)
    } else {
        (HomeSyncStage::Last, HomeSyncStep::WriteCursor { goal, result })
    }
}

/// The end of the mirroring of a session.
pub open spec fn home_sync_ended(outcome: Result<(), HomeSyncError>) -> (HomeSyncStage, HomeSyncStep) {
    (HomeSyncStage::Finished, HomeSyncStep::Finish { outcome })
}

fn end_home_sync(outcome: Result<(), HomeSyncError>) -> (res: (HomeSyncStage, HomeSyncStep))
    ensures
        res == home_sync_ended(outcome),
{
    (HomeSyncStage::Finished, HomeSyncStep::Finish { outcome })
}

/// What follows from an event.
pub open spec fn home_sync_next(stage: HomeSyncStage, event: HomeSyncEvent) -> (HomeSyncStage, HomeSyncStep) {
    match (stage, event) {
        (HomeSyncStage::Finished, _) => home_sync_ended(Err(HomeSyncError::OutOfTurn)),
        (HomeSyncStage::Locating, HomeSyncEvent::Failed(_)) => home_sync_ended(
            Err(HomeSyncError::NotLocated),
        ),
        (_, HomeSyncEvent::Failed(reason)) => home_sync_ended(Err(HomeSyncError::Outside(reason))),
        (HomeSyncStage::Locating, HomeSyncEvent::Located { log, same_workspace }) => if same_workspace {
            (HomeSyncStage::ReadingCursor { log }, HomeSyncStep::ReadCursor)
        } else {
            home_sync_ended(Err(HomeSyncError::WrongWorkspace { log_cwd: log.cwd }))
        },
        (HomeSyncStage::ReadingCursor { log }, HomeSyncEvent::Cursor(cursor)) => home_sync_cursor(
            log,
            cursor,
        ),
        (HomeSyncStage::ReadingAll { goal }, HomeSyncEvent::Parsed(result)) => (
            HomeSyncStage::ReadingWatermark { goal, result },
            HomeSyncStep::ReadWatermark,
        ),
        (
            HomeSyncStage::ReadingWatermark { goal, result },
            HomeSyncEvent::Watermark(watermark),
        ) => home_sync_marked(goal, result, watermark),
        (HomeSyncStage::ReadingOn { goal, .. }, HomeSyncEvent::Parsed(result)) => home_sync_from(
            goal,
            result,
            None,
            0,
        ),
        (HomeSyncStage::ReadingOn { offset, path, .. }, HomeSyncEvent::BadOffset) => home_sync_ended(
            Err(HomeSyncError::BadOffset { offset, path }),
        ),
        (HomeSyncStage::Mirroring { goal, result, watermark, index }, HomeSyncEvent::Done) => home_sync_behind(
            goal,
            result,
            watermark,
            index,
        ),
        (HomeSyncStage::Last, HomeSyncEvent::Done) => home_sync_ended(Ok(())),
        _ => home_sync_ended(Err(HomeSyncError::OutOfTurn)),
    }
}

/// The next step of the mirroring of a session.
pub fn advance_home_sync(stage: HomeSyncStage, event: HomeSyncEvent) -> (res: (HomeSyncStage, HomeSyncStep))
    ensures
        res == home_sync_next(stage, event),
{
    match (stage, event) {
        (HomeSyncStage::Finished, _) => end_home_sync(Err(HomeSyncError::OutOfTurn)),
        (HomeSyncStage::Locating, HomeSyncEvent::Failed(_)) => end_home_sync(
            Err(HomeSyncError::NotLocated),
        ),
        (_, HomeSyncEvent::Failed(reason)) => end_home_sync(Err(HomeSyncError::Outside(reason))),
        (HomeSyncStage::Locating, HomeSyncEvent::Located { log, same_workspace }) => if same_workspace {
            (HomeSyncStage::ReadingCursor { log }, HomeSyncStep::ReadCursor)
        } else {
            end_home_sync(Err(HomeSyncError::WrongWorkspace { log_cwd: log.cwd }))
        },
        (HomeSyncStage::ReadingCursor { log }, HomeSyncEvent::Cursor(cursor)) => on_home_cursor(
            log,
            cursor,
        ),
        (HomeSyncStage::ReadingAll { goal }, HomeSyncEvent::Parsed(result)) => (
            HomeSyncStage::ReadingWatermark { goal, result },
            HomeSyncStep::ReadWatermark,
        ),
        (
            HomeSyncStage::ReadingWatermark { goal, result },
            HomeSyncEvent::Watermark(watermark),
        ) => on_watermark(goal, result, watermark),
        (HomeSyncStage::ReadingOn { goal, .. }, HomeSyncEvent::Parsed(result)) => mirror_from(
            goal,
            result,
            None,
            0,
        ),
        (HomeSyncStage::ReadingOn { offset, path, .. }, HomeSyncEvent::BadOffset) => end_home_sync(
            Err(HomeSyncError::BadOffset { offset, path }),
        ),
        (HomeSyncStage::Mirroring { goal, result, watermark, index }, HomeSyncEvent::Done) => mirror_behind(
            goal,
            result,
            watermark,
            index,
        ),
        (HomeSyncStage::Last, HomeSyncEvent::Done) => end_home_sync(Ok(())),
        _ => end_home_sync(Err(HomeSyncError::OutOfTurn)),
    }
}

/// How many steps the mirroring of a session can still take.
pub open spec fn home_sync_steps_left(stage: HomeSyncStage) -> int {
    match stage {
        HomeSyncStage::Locating => usize::MAX + 6,
        HomeSyncStage::ReadingCursor { .. } => usize::MAX + 5,
        HomeSyncStage::ReadingAll { .. } => usize::MAX + 4,
        HomeSyncStage::ReadingWatermark { .. } => usize::MAX + 3,
        HomeSyncStage::ReadingOn { .. } => usize::MAX + 3,
        HomeSyncStage::Mirroring { result, index, .. } => if index < result.candidates.len() {
            result.candidates.len() - index + 2
        } else {
            2
        },
        HomeSyncStage::Last => 1,
        HomeSyncStage::Finished => 0,
    }
}

/// A candidate that is found stands where it was looked for.
proof fn lemma_next_due(
    candidates: Seq<CodexHomeMirrorCandidate>,
    watermark: Option<String>,
    from: int,
)
    requires
        0 <= from,
    ensures
        match next_due(candidates, watermark, from) {
            Some(index) => from <= index < candidates.len() && is_due(candidates[index], watermark)
                && forall|i: int| from <= i < index ==> !#[trigger] is_due(candidates[i], watermark),
            None => forall|i: int|
                from <= i < candidates.len() ==> !#[trigger] is_due(candidates[i], watermark),
        },
    decreases candidates.len() - from,
{
    if from < candidates.len() && !is_due(candidates[from], watermark) {
        lemma_next_due(candidates, watermark, from + 1);
    }
}

/// Whatever comes of its steps, the mirroring of a session ends.
pub proof fn law_home_sync_ends(stage: HomeSyncStage, event: HomeSyncEvent)
    ensures
        home_sync_next(stage, event).1 is Finish <==> home_sync_next(stage, event).0 is Finished,
        stage !is Finished ==> 0 <= home_sync_steps_left(home_sync_next(stage, event).0)
            < home_sync_steps_left(stage),
{
    match (stage, event) {
        (HomeSyncStage::ReadingWatermark { goal, result }, HomeSyncEvent::Watermark(watermark)) => {
            lemma_next_due(result.candidates@, watermark, 0);
        },
        (HomeSyncStage::ReadingOn { goal, .. }, HomeSyncEvent::Parsed(result)) => {
            lemma_next_due(result.candidates@, None, 0);
        },
        (
            HomeSyncStage::Mirroring { goal, result, watermark, index },
            HomeSyncEvent::Done,
        ) => {
            lemma_next_due(result.candidates@, watermark, index + 1);
        },
        _ => {},
    }
}

/// Behind a candidate that was mirrored comes the next that is due, with none between them left
/// out, and the cursor is written only once none is left.
pub proof fn law_candidates_are_taken_in_order(
    goal: CursorGoal,
    result: CodexHomeParseResult,
    watermark: Option<String>,
    index: usize,
)
    requires
        index < result.candidates@.len(),
    ensures
        match home_sync_next(
            HomeSyncStage::Mirroring { goal, result, watermark, index },
            HomeSyncEvent::Done,
        ).1 {
            HomeSyncStep::Mirror { index: next } => index < next && next < result.candidates@.len()
                && is_due(result.candidates@[next as int], watermark) && forall|i: int|
                index < i < next ==> !#[trigger] is_due(result.candidates@[i], watermark),
            HomeSyncStep::WriteCursor { .. } => forall|i: int|
                index < i < result.candidates@.len() ==> !#[trigger] is_due(
                    result.candidates@[i],
                    watermark,
                ),
            _ => false,
        },
{
    assert(result.candidates@.len() == result.candidates.len());
    lemma_next_due(result.candidates@, watermark, index + 1);
}

/// A log that is seen for the first time is not replayed: without a watermark nothing of it is
/// mirrored, and with one only what is after it.
pub proof fn law_old_messages_are_not_replayed(
    goal: CursorGoal,
    result: CodexHomeParseResult,
    watermark: Option<String>,
)
    ensures
        match home_sync_next(
            HomeSyncStage::ReadingWatermark { goal, result },
            HomeSyncEvent::Watermark(watermark),
        ).1 {
            HomeSyncStep::Mirror { index } => watermark is Some && index < result.candidates@.len()
                && is_due(result.candidates@[index as int], watermark),
            HomeSyncStep::WriteCursor { .. } => true,
            _ => false,
        },
{
    assert(result.candidates@.len() == result.candidates.len());
    lemma_next_due(result.candidates@, watermark, 0);
}

/// What stands behind the first part of a log is read on from the byte where that part ends.
pub proof fn law_logs_are_read_on_from_a_byte(first: Seq<char>, rest: Seq<char>)
    ensures
        text_from(first + rest, text::byte_len(first) as int) == Some(rest),
{
    let whole = first + rest;
    let n = first.len() as int;
    assert(whole.take(n) =~= first);
    lemma_chars_before(whole, n, 0);
    assert(whole.skip(n) =~= rest);
}

/// The characters before a character are found from any place before it.
proof fn lemma_chars_before(s: Seq<char>, n: int, from: int)
    requires
        0 <= from <= n <= s.len(),
    ensures
        chars_before(s, text::byte_len(s.take(n)) as int, from) == Some(n),
        from < n ==> text::byte_len(s.take(from)) < text::byte_len(s.take(n)),
    decreases n - from,
{
    if from < n {
        lemma_chars_before(s, n, from + 1);
        lemma_byte_len_prefix(s, from);
    }
}

/// Every line counts as one line and takes its bytes and that of its end, whatever it holds; a line
/// that cannot be read counts as malformed and says nothing.
pub proof fn law_every_line_is_counted(
    reader: ReaderModel,
    document: Option<Map<Seq<char>, NodeModel>>,
    bytes: int,
    now: Seq<char>,
)
    ensures
        ({
            let next = reader.after(document, bytes, now);
            &&& next.line == reader.line + 1
            &&& next.last_line == reader.line + 1
            &&& next.offset == reader.offset + bytes + 1
            &&& document is Some ==> next.malformed == reader.malformed
            &&& document is None ==> next.malformed == reader.malformed + 1 && next.candidates
                == reader.candidates && next.turn == reader.turn && next.last_turn_id
                == reader.last_turn_id
            &&& reader.candidates.is_prefix_of(next.candidates)
        }),
{
}

/// A line of a log with a message of a turn.
pub open spec fn is_message(
    nodes: Map<Seq<char>, NodeModel>,
    role: Seq<char>,
    said: Seq<char>,
    at: Seq<char>,
) -> bool {
    &&& json::text_in(nodes, "/type"@) == Some("response_item"@)
    &&& json::text_in(nodes, "/payload/type"@) == Some("message"@)
    &&& json::text_in(nodes, "/payload/role"@) == Some(role)
    &&& json::text_in(nodes, "/timestamp"@) == Some(at)
    &&& message_in(nodes) == Some(said)
}

/// A turn that is complete is mirrored: the prompt of the user and the reply of the session, each as
/// it was said, when it was said, at its line, and as part of that turn.
pub proof fn law_complete_turns_are_mirrored(
    start: ReaderModel,
    started: Map<Seq<char>, NodeModel>,
    asked: Map<Seq<char>, NodeModel>,
    answered: Map<Seq<char>, NodeModel>,
    ended: Map<Seq<char>, NodeModel>,
    turn_id: Seq<char>,
    prompt: Seq<char>,
    prompted_at: Seq<char>,
    reply: Seq<char>,
    replied_at: Seq<char>,
    bytes: int,
    now: Seq<char>,
)
    requires
        json::text_in(started, "/type"@) == Some("event_msg"@),
        json::text_in(started, "/payload/type"@) == Some("task_started"@),
        !started.contains_key("/payload/id"@),
        json::text_in(started, "/payload/turn_id"@) == Some(turn_id),
        is_message(asked, "user"@, prompt, prompted_at),
        !is_bootstrap(prompt),
        is_message(answered, "assistant"@, reply, replied_at),
        json::text_in(ended, "/type"@) == Some("event_msg"@),
        json::text_in(ended, "/payload/type"@) == Some("task_complete"@),
    ensures
        ({
            let begun = start.after(Some(started), bytes, now);
            let prompted = begun.after(Some(asked), bytes, now);
            let replied = prompted.after(Some(answered), bytes, now);
            let end = replied.after(Some(ended), bytes, now);
            let count = start.candidates.len() as int;
            let first = end.candidates[count];
            let second = end.candidates[count + 1];
            &&& end.candidates.len() == count + 2
            &&& start.candidates.is_prefix_of(end.candidates)
            &&& end.turn is None
            &&& end.last_turn_id == Some(turn_id)
            &&& first.role == TranscriptMirrorRole::User
            &&& first.text == prompt
            &&& first.timestamp == prompted_at
            &&& first.turn_id == turn_id
            &&& first.line_no == start.line + 2
            &&& first.offset_end == start.offset + 2 * bytes + 2
            &&& second.role == TranscriptMirrorRole::Assistant
            &&& second.text == reply
            &&& second.timestamp == replied_at
            &&& second.turn_id == turn_id
            &&& second.line_no == start.line + 3
            &&& second.offset_end == start.offset + 3 * bytes + 3
        }),
{
    lemma_words_of_logs_differ();
}

/// The words by which the lines of a log are told apart are different words.
proof fn lemma_words_of_logs_differ()
    ensures
        "event_msg"@ != "turn_context"@,
        "event_msg"@ != "response_item"@,
        "turn_context"@ != "response_item"@,
        "task_started"@ != "task_complete"@,
        "user"@ != "assistant"@,
{
    reveal_strlit("event_msg");
    reveal_strlit("turn_context");
    reveal_strlit("response_item");
    reveal_strlit("task_started");
    reveal_strlit("task_complete");
    reveal_strlit("user");
    reveal_strlit("assistant");
    assert("event_msg"@.len() == 9 && "turn_context"@.len() == 12 && "response_item"@.len() == 13);
    assert("task_started"@.len() == 12 && "task_complete"@.len() == 13);
    assert("user"@.len() == 4 && "assistant"@.len() == 9);
}

/// Of a turn the first prompt counts and the last reply; what only sets the session up is no prompt,
/// and what neither the user nor the session said is not taken in.
pub proof fn law_first_prompts_and_last_replies_count(
    reader: ReaderModel,
    turn: PendingModel,
    nodes: Map<Seq<char>, NodeModel>,
    role: Seq<char>,
    said: Seq<char>,
    at: Seq<char>,
    bytes: int,
    now: Seq<char>,
)
    requires
        reader.turn == Some(turn),
        is_message(nodes, role, said, at),
    ensures
        ({
            let next = reader.after(Some(nodes), bytes, now);
            &&& next.turn is Some && next.turn->0.turn_id == turn.turn_id
            &&& role == "user"@ && (turn.user is Some || is_bootstrap(said)) ==> next.turn
                == reader.turn
            &&& role == "user"@ && turn.user is None && !is_bootstrap(said) ==> next.turn->0.user
                is Some && next.turn->0.user->0.text == said && next.turn->0.latest_assistant
                == turn.latest_assistant
            &&& role == "assistant"@ ==> next.turn->0.latest_assistant is Some
                && next.turn->0.latest_assistant->0.text == said && next.turn->0.user == turn.user
            &&& role != "user"@ && role != "assistant"@ ==> next.turn == reader.turn
            &&& next.candidates == reader.candidates
        }),
{
    lemma_words_of_logs_differ();
}

/// A message outside of a turn is not taken in, nor is one without a text; a turn without a prompt is
/// not mirrored, and one without a reply only as its prompt.
pub proof fn law_only_prompted_turns_are_mirrored(
    reader: ReaderModel,
    nodes: Map<Seq<char>, NodeModel>,
    ended: Map<Seq<char>, NodeModel>,
    bytes: int,
    now: Seq<char>,
)
    requires
        json::text_in(nodes, "/type"@) == Some("response_item"@),
        json::text_in(ended, "/type"@) == Some("event_msg"@),
        json::text_in(ended, "/payload/type"@) == Some("task_complete"@),
    ensures
        reader.turn is None || message_in(nodes) is None ==> reader.after(Some(nodes), bytes, now)
            == reader.passed(bytes),
        ({
            let end = reader.after(Some(ended), bytes, now);
            &&& end.turn is None
            &&& reader.turn matches Some(turn) ==> {
                &&& turn.user is None ==> end.candidates == reader.candidates
                &&& turn.user is Some && turn.latest_assistant is None ==> end.candidates
                    == reader.candidates.push(turn.user->0)
            }
            &&& reader.turn is None ==> end.candidates == reader.candidates
        }),
{
    lemma_words_of_logs_differ();
}

/// A context begins a turn where none has begun; within a turn it only says which turn is the last.
/// A turn that begins drops what was said in one that did not end.
pub proof fn law_contexts_begin_turns(
    reader: ReaderModel,
    nodes: Map<Seq<char>, NodeModel>,
    turn_id: Seq<char>,
    bytes: int,
    now: Seq<char>,
)
    requires
        !nodes.contains_key("/payload/id"@),
        json::text_in(nodes, "/payload/turn_id"@) == Some(turn_id),
    ensures
        json::text_in(nodes, "/type"@) == Some("turn_context"@) ==> ({
            let next = reader.after(Some(nodes), bytes, now);
            &&& next.last_turn_id == Some(turn_id)
            &&& reader.turn is None ==> next.turn == Some(
                PendingModel { turn_id, user: None, latest_assistant: None },
            )
            &&& reader.turn is Some ==> next.turn == reader.turn
            &&& next.candidates == reader.candidates
        }),
        json::text_in(nodes, "/type"@) == Some("event_msg"@) && json::text_in(
            nodes,
            "/payload/type"@,
        ) == Some("task_started"@) ==> ({
            let next = reader.after(Some(nodes), bytes, now);
            &&& next.last_turn_id == Some(turn_id)
            &&& next.turn == Some(PendingModel { turn_id, user: None, latest_assistant: None })
            &&& next.candidates == reader.candidates
        }),
{
    lemma_words_of_logs_differ();
}

/// A message that begins with the words that set a session up only sets it up, whatever follows and
/// whatever blanks stand before it; one that begins with another letter does not.
pub proof fn law_bootstrap_messages_begin_with_their_words(rest: Seq<char>)
    ensures
        is_bootstrap("# AGENTS.md instructions"@ + rest),
        is_bootstrap("Read and follow the workspace AGENTS.md if present"@ + rest),
        is_bootstrap(seq![' '] + rest) <==> is_bootstrap(rest),
        is_bootstrap(seq!['\n'] + rest) <==> is_bootstrap(rest),
        rest.len() > 0 && !text::is_white(rest[0]) && rest[0] != '#' && rest[0] != 'R'
            ==> !is_bootstrap(rest),
        !is_bootstrap(Seq::empty()),
{
    let first = "# AGENTS.md instructions"@;
    let second = "Read and follow the workspace AGENTS.md if present"@;
    reveal_strlit("# AGENTS.md instructions");
    reveal_strlit("Read and follow the workspace AGENTS.md if present");
    text::law_visible_characters_are_not_white('#');
    text::law_visible_characters_are_not_white('R');
    text::law_visible_characters_are_not_white(' ');
    text::law_visible_characters_are_not_white('\n');
    assert((first + rest)[0] == '#');
    assert((second + rest)[0] == 'R');
    assert(text::trimmed_start(first + rest) == first + rest);
    assert(text::trimmed_start(second + rest) == second + rest);
    assert(first.is_prefix_of(first + rest));
    assert(second.is_prefix_of(second + rest));
    assert((seq![' '] + rest).drop_first() =~= rest);
    assert((seq!['\n'] + rest).drop_first() =~= rest);
    if rest.len() > 0 && !text::is_white(rest[0]) && rest[0] != '#' && rest[0] != 'R' {
        assert(text::trimmed_start(rest) == rest);
        assert(first[0] == '#' && second[0] == 'R');
        if first.is_prefix_of(rest) {
            assert(rest.subrange(0, first.len() as int)[0] == rest[0]);
        }
        if second.is_prefix_of(rest) {
            assert(rest.subrange(0, second.len() as int)[0] == rest[0]);
        }
    }
}

/// The workspace of a log is the one that its first head names, and who began it is told by the
/// first head that says anything about it; other lines before that do not matter.
pub proof fn law_heads_name_the_workspace(
    lines: Seq<Seq<char>>,
    from: int,
    nodes: Map<Seq<char>, NodeModel>,
    cwd: Seq<char>,
)
    requires
        0 <= from < lines.len(),
        document_of(lines[from]) == Some(nodes),
    ensures
        json::text_in(nodes, "/type"@) == Some("session_meta"@) && json::text_in(
            nodes,
            "/payload/cwd"@,
        ) == Some(cwd) ==> first_cwd(lines, from) == Some(cwd),
        json::text_in(nodes, "/type"@) != Some("session_meta"@) ==> first_cwd(lines, from)
            == first_cwd(lines, from + 1) && first_makers(lines, from) == first_makers(
            lines,
            from + 1,
        ),
        json::text_in(nodes, "/type"@) == Some("session_meta"@) && nodes.contains_key("/payload"@)
            ==> first_makers(lines, from) == (
            json::text_in(nodes, "/payload/source"@),
            json::text_in(nodes, "/payload/originator"@),
        ),
{
}

/// A log is read on from where its cursor stands if it has grown, and whole if it is another log than
/// that of the cursor or has no cursor. One that has become shorter is passed over, and one that is
/// as it was is left alone, unless no turn of it is known.
pub proof fn law_cursors_say_where_to_read(
    log: CodexHomeSessionLog,
    cursor: CodexHomeMirrorCursor,
)
    ensures
        ({
            let fresh = home_sync_next(
                HomeSyncStage::ReadingCursor { log },
                HomeSyncEvent::Cursor(None),
            );
            let known = home_sync_next(
                HomeSyncStage::ReadingCursor { log },
                HomeSyncEvent::Cursor(Some(cursor)),
            );
            let same = cursor.log_path@ == log.path@;
            let whole = CursorGoal::Read { log_path: log.path, len: log.len };
            &&& fresh.1 is ReadAll && fresh.0 == (HomeSyncStage::ReadingAll { goal: whole })
            &&& !same ==> known == fresh
            &&& same && log.len > cursor.last_offset ==> known.1 == (HomeSyncStep::ReadOn {
                line: cursor.last_line,
                offset: cursor.last_offset,
            })
            &&& same && log.len < cursor.last_offset ==> known.1 == (HomeSyncStep::WriteShrunk {
                cursor,
                len: log.len,
            })
            &&& same && log.len == cursor.last_offset && cursor.last_turn_id is Some ==> known.1
                == (HomeSyncStep::Finish { outcome: Ok(()) })
            &&& same && log.len == cursor.last_offset && cursor.last_turn_id is None ==> known.1
                is ReadAll && known.0 == (HomeSyncStage::ReadingAll {
                goal: CursorGoal::Recheck { cursor },
            })
        }),
{
}

/// A log is mirrored only if it is of the workspace of the binding. Where it cannot be found, or is of
/// another workspace, or is cut in the middle of a character, that is what the mirroring fails with.
pub proof fn law_wrong_logs_are_refused(
    log: CodexHomeSessionLog,
    goal: CursorGoal,
    offset: u64,
    path: String,
    reason: String,
)
    ensures
        home_sync_next(
            HomeSyncStage::Locating,
            HomeSyncEvent::Located { log, same_workspace: true },
        ).1 is ReadCursor,
        home_sync_next(
            HomeSyncStage::Locating,
            HomeSyncEvent::Located { log, same_workspace: false },
        ).1 == (HomeSyncStep::Finish {
            outcome: Err(HomeSyncError::WrongWorkspace { log_cwd: log.cwd }),
        }),
        home_sync_next(HomeSyncStage::Locating, HomeSyncEvent::Failed(reason)).1 == (
        HomeSyncStep::Finish { outcome: Err(HomeSyncError::NotLocated) }),
        home_sync_next(
            HomeSyncStage::ReadingOn { goal, offset, path },
            HomeSyncEvent::BadOffset,
        ).1 == (HomeSyncStep::Finish { outcome: Err(HomeSyncError::BadOffset { offset, path }) }),
{
}

/// What a log has grown by is mirrored whole; of a log that is read for the first time only what was
/// said after the watermark is, as a point in time where both times can be read.
pub proof fn law_new_messages_are_due(
    candidate: CodexHomeMirrorCandidate,
    watermark: String,
    goal: CursorGoal,
    result: CodexHomeParseResult,
    offset: u64,
    path: String,
    said: (i64, u32),
    marked: (i64, u32),
)
    ensures
        is_due(candidate, None),
        result.candidates@.len() > 0 ==> home_sync_next(
            HomeSyncStage::ReadingOn { goal, offset, path },
            HomeSyncEvent::Parsed(result),
        ).1 == (HomeSyncStep::Mirror { index: 0 }),
        result.candidates@.len() == 0 ==> home_sync_next(
            HomeSyncStage::ReadingOn { goal, offset, path },
            HomeSyncEvent::Parsed(result),
        ).1 == (HomeSyncStep::WriteCursor { goal, result }),
        home_sync_next(
            HomeSyncStage::ReadingWatermark { goal, result },
            HomeSyncEvent::Watermark(None),
        ).1 == (HomeSyncStep::WriteCursor { goal, result }),
        clock::rfc3339_instant(candidate.timestamp@) == Some(said) && clock::rfc3339_instant(
            watermark@,
        ) == Some(marked) ==> (is_due(candidate, Some(watermark)) <==> said.0 > marked.0 || said.0
            == marked.0 && said.1 > marked.1),
{
}

/// A candidate is put into the transcript once its delivery is claimed; one that is new there is
/// shown, a prompt as an echo and a reply as a reply, and one that is not is put on record as
/// skipped.
pub proof fn law_candidates_are_shown_as_what_they_are(role: TranscriptMirrorRole)
    ensures
        ({
            let claimed = candidate_next(
                CandidateStage::Claiming { role },
                CandidateEvent::Claimed { claimed: true },
            );
            let fresh = candidate_next(claimed.0, CandidateEvent::Inserted { inserted: true });
            &&& candidate_next(
                CandidateStage::Claiming { role },
                CandidateEvent::Claimed { claimed: false },
            ).1 == (CandidateStep::Finish { outcome: Ok(()) })
            &&& claimed.1 is Append
            &&& candidate_next(claimed.0, CandidateEvent::Inserted { inserted: false }).1
                is CommitSkip
            &&& role == TranscriptMirrorRole::User ==> fresh.1 is SendEcho
            &&& role == TranscriptMirrorRole::Assistant ==> fresh.1 is SendReply
            &&& candidate_next(fresh.0, CandidateEvent::Done).1 is Commit
        }),
{
}

/// Lines that could not be read are noted with their number, and where all could be read nothing is.
pub proof fn law_malformed_lines_are_noted(count: u64)
    ensures
        malformed_note(0) is None,
        count > 0 ==> malformed_note(count) is Some && text::occurs_at(
            malformed_note(count)->0,
            text::decimal(count as nat),
            22,
        ),
{
    reveal_strlit("malformed_jsonl_lines=");
    if count > 0 {
        let note = malformed_note(count)->0;
        let number = text::decimal(count as nat);
        assert(note.subrange(22, 22 + number.len() as int) =~= number);
    }
}

/// Why a session was not mirrored names the session, or the place in the log.
pub proof fn law_mirror_errors_name_what_is_wrong(
    session_id: Seq<char>,
    workspace: Seq<char>,
    log_cwd: String,
    reason: String,
)
    ensures
        HomeSyncError::Outside(reason).message(session_id, workspace) == reason@,
        text::occurs_at(
            HomeSyncError::NotLocated.message(session_id, workspace),
            session_id,
            44,
        ),
        ({
            let said = (HomeSyncError::WrongWorkspace { log_cwd }).message(session_id, workspace);
            &&& text::occurs_at(said, session_id, 36)
            &&& text::occurs_at(said, log_cwd@, 36int + session_id.len() + 10)
            &&& text::occurs_at(said, workspace, said.len() - workspace.len())
        }),
{
    reveal_strlit("failed to locate Codex home session log for ");
    reveal_strlit("Codex home session cwd mismatch for ");
    reveal_strlit(": log cwd ");
    let lost = HomeSyncError::NotLocated.message(session_id, workspace);
    assert(lost.subrange(44, 44 + session_id.len() as int) =~= session_id);
    let said = (HomeSyncError::WrongWorkspace { log_cwd }).message(session_id, workspace);
    let at: int = 36int + session_id.len() + 10;
    assert(said.subrange(36, 36 + session_id.len() as int) =~= session_id);
    assert(said.subrange(at, at + log_cwd@.len()) =~= log_cwd@);
    assert(said.subrange(said.len() - workspace.len(), said.len() as int) =~= workspace);
}

/// The latest time is that of what was said to an end in the session: a step of a turn, or what was
/// said elsewhere, does not change it, and what was said later does.
pub proof fn law_later_replies_move_the_watermark(
    entries: Seq<TranscriptMirrorEntry>,
    entry: TranscriptMirrorEntry,
    session_id: Seq<char>,
    latest: Seq<char>,
)
    requires
        is_latest(entries, session_id, Some(latest)),
    ensures
        entry@.delivery == TranscriptMirrorDelivery::Process || entry@.session_id != session_id
            ==> is_latest(entries.push(entry), session_id, Some(latest)),
        entry@.delivery == TranscriptMirrorDelivery::Final && entry@.session_id == session_id
            && text::text_before(latest, entry@.timestamp) ==> is_latest(
            entries.push(entry),
            session_id,
            Some(entry@.timestamp),
        ) && !is_latest(entries.push(entry), session_id, Some(latest)),
        is_latest(Seq::empty(), session_id, None),
{
    lemma_latest_pushed(entries, entry, session_id, Some(latest));
    let more = entries.push(entry);
    if entry@.delivery == TranscriptMirrorDelivery::Final && entry@.session_id == session_id
        && text::text_before(latest, entry@.timestamp) {
        assert(more[entries.len() as int] == entry);
        assert(is_final_of(more[entries.len() as int]@, session_id));
    }
}

/// Nothing is taken that was not asked for: what has ended stays so, and an event of another step ends
/// it; a step that fails ends it for the reason of the failure.
pub proof fn law_mirroring_takes_only_what_was_asked_for(
    shown: CandidateEvent,
    read: HomeSyncEvent,
    role: TranscriptMirrorRole,
    log: CodexHomeSessionLog,
    reason: String,
)
    ensures
        candidate_next(CandidateStage::Finished, shown).1 == (CandidateStep::Finish {
            outcome: Err(FlowError::OutOfTurn),
        }),
        shown !is Claimed && shown !is Failed ==> candidate_next(
            CandidateStage::Claiming { role },
            shown,
        ).1 == (CandidateStep::Finish { outcome: Err(FlowError::OutOfTurn) }),
        candidate_next(CandidateStage::Sending, CandidateEvent::Failed(reason)).1 == (
        CandidateStep::Finish { outcome: Err(FlowError::Outside(reason)) }),
        candidate_next(CandidateStage::Committing, shown).1 == (CandidateStep::Finish {
            outcome: Ok(()),
        }),
        candidate_next(CandidateStage::CommittingSkip, shown).1 == (CandidateStep::Finish {
            outcome: Ok(()),
        }),
        home_sync_next(HomeSyncStage::Finished, read).1 == (HomeSyncStep::Finish {
            outcome: Err(HomeSyncError::OutOfTurn),
        }),
        read !is Cursor && read !is Failed ==> home_sync_next(
            HomeSyncStage::ReadingCursor { log },
            read,
        ).1 == (HomeSyncStep::Finish { outcome: Err(HomeSyncError::OutOfTurn) }),
        home_sync_next(HomeSyncStage::ReadingCursor { log }, HomeSyncEvent::Failed(reason)).1 == (
        HomeSyncStep::Finish { outcome: Err(HomeSyncError::Outside(reason)) }),
        home_sync_next(HomeSyncStage::Last, HomeSyncEvent::Done).1 == (HomeSyncStep::Finish {
            outcome: Ok(()),
        }),
{
}

/// A file is a log of a session by its name: it begins and ends as logs do, and holds the session.
pub proof fn law_logs_go_by_their_names(
    path: Seq<char>,
    name: Seq<char>,
    session_id: Seq<char>,
)
    ensures
        paths::file_name_of(path) is None ==> !is_log_of(path, session_id),
        paths::file_name_of(path) == Some("rollout-"@ + name + session_id + ".jsonl"@) ==> is_log_of(
            path,
            session_id,
        ),
        paths::file_name_of(path) matches Some(found) ==> (is_log_of(path, session_id)
            ==> "rollout-"@.is_prefix_of(found) && ".jsonl"@.is_suffix_of(found) && text::contains(
            found,
            session_id,
        )),
{
    let whole = "rollout-"@ + name + session_id + ".jsonl"@;
    let at: int = "rollout-"@.len() + name.len() as int;
    assert("rollout-"@ =~= whole.subrange(0, "rollout-"@.len() as int));
    assert(".jsonl"@ =~= whole.subrange(whole.len() - ".jsonl"@.len(), whole.len() as int));
    assert(whole.subrange(at, at + session_id.len()) =~= session_id);
    assert(text::occurs_at(whole, session_id, at));
}

/// Logs are mirrored unless a word switches that off, in whatever case and with whatever blanks around
/// it.
pub proof fn law_mirroring_can_be_switched_off(setting: Option<&str>, enabled: bool)
    requires
        call_ensures(codex_home_mirror_enabled, (setting,), enabled),
    ensures
        setting is None ==> enabled,
        setting matches Some(setting) ==> ({
            let word = text::ascii_lowercase(text::trimmed(setting@));
            !enabled <==> word == "0"@ || word == "false"@ || word == "off"@ || word == "no"@
        }),
{
}

/// What a transcript gets of a candidate is what was said in the session, to its end, by whom it was
/// said, when, and as part of which turn.
pub proof fn law_candidates_are_entered_as_said(
    candidate: CodexHomeMirrorCandidate,
    session_id: &str,
    entry: TranscriptMirrorEntry,
)
    requires
        call_ensures(candidate_entry, (&candidate, session_id), entry),
    ensures
        entry@.session_id == session_id@,
        entry@.turn_id == Some(candidate.turn_id@),
        entry@.role == candidate.role,
        entry@.text == candidate.text@,
        entry@.timestamp == candidate.timestamp@,
        entry@.delivery == TranscriptMirrorDelivery::Final,
        entry@.origin == TranscriptMirrorOrigin::Local,
        entry@.phase is None,
{
}

/// A session is mirrored only of a binding that is healthy and names both the session and a workspace.
pub proof fn law_healthy_bindings_are_mirrored(
    metadata: ThreadMetadata,
    binding: SessionBinding,
    eligible: bool,
)
    requires
        call_ensures(binding_is_eligible, (&metadata, &binding), eligible),
    ensures
        eligible ==> binding@.current_codex_thread_id is Some && binding@.workspace_cwd is Some,
        eligible ==> thread_state::binding_status_of(Some(binding@)) == BindingStatus::Healthy,
        !eligible ==> binding@.current_codex_thread_id is None || binding@.workspace_cwd is None
            || thread_state::binding_status_of(Some(binding@)) != BindingStatus::Healthy,
{
}

} // verus!
