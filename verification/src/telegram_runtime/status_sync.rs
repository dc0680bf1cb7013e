//! Keeping Telegram in step with the workspaces: the titles of topics, and what a local client
//! does in a session.
use serde_json::Value;
use vstd::prelude::*;
use vstd::string::*;

use crate::json;
use crate::json::NodeModel;
use crate::repository;
use crate::repository::{
    EntryModel, SessionBinding, ThreadMetadata, TranscriptMirrorDelivery, TranscriptMirrorEntry, TranscriptMirrorOrigin, TranscriptMirrorPhase, TranscriptMirrorRole,
};
use crate::telegram_runtime::preview::{PreviewModel, TurnPreview};
use crate::telegram_runtime::title_sync;
use crate::telegram_runtime::FlowError;
use crate::text;
use crate::thread_state;
use crate::thread_state::BindingStatus;
use crate::workspace_status;
use crate::workspace_status::{LocalTuiSessionClaim, SessionActivitySource};

pub use crate::telegram_runtime::busy_copy::{busy_command_message, busy_text_message};
pub use crate::telegram_runtime::title_sync::{
    render_topic_title, topic_title_suffix_label, tui_adoption_prompt_markup,
    tui_adoption_prompt_text,
};
pub use crate::workspace_status::is_hcodex_ingress_client;

pub use crate::runtime_busy_reconcile::{
    reconcile_stale_bot_busy_sessions, StaleBusyReconciliation, StaleBusyReconciliationReport,
};

verus! {

broadcast use vstd::string::group_string_axioms;

/// Something that happened in a workspace.
#[derive(Debug)]
pub struct WorkspaceStatusEventRecord {
    pub schema_version: u32,
    pub event: String,
    pub source: SessionActivitySource,
    pub workspace_cwd: String,
    pub occurred_at: String,
    pub payload: Value,
}

/// Something that happened in a workspace, as far as it is looked at.
pub struct StatusEventModel {
    pub event: Seq<char>,
    pub occurred_at: Seq<char>,
    pub payload: Map<Seq<char>, NodeModel>,
}

impl View for WorkspaceStatusEventRecord {
    type V = StatusEventModel;

    open spec fn view(&self) -> StatusEventModel {
        StatusEventModel {
            event: self.event@,
            occurred_at: self.occurred_at@,
            payload: json::json_nodes(self.payload),
        }
    }
}

/// Events as values.
pub open spec fn event_models(events: Seq<WorkspaceStatusEventRecord>) -> Seq<StatusEventModel> {
    events.map_values(|event: WorkspaceStatusEventRecord| event@)
}

/// The sessions of a workspace that local clients are at work on.
#[derive(Debug)]
pub struct WorkspaceAggregateStatus {
    pub live_tui_session_ids: Vec<String>,
}

/// Whether local clients are at work on a workspace otherwise than its claim says: without a
/// claim, several at once, or in another session than the one that is claimed.
pub open spec fn is_local_conflict(live: Seq<Seq<char>>, claim: Option<LocalTuiSessionClaim>) -> bool {
    live.len() > 0 && match claim {
        Some(claim) => live.len() > 1 || match claim.session_id {
            Some(expected) => !live.contains(expected@),
            None => false,
        },
        None => true,
    }
}

/// Whether local clients are at work on a workspace otherwise than its claim says.
pub fn workspace_local_conflict(
    aggregate: Option<&WorkspaceAggregateStatus>,
    local_tui_claim: Option<&LocalTuiSessionClaim>,
) -> (res: bool)
    ensures
        res == match aggregate {
            Some(aggregate) => is_local_conflict(
                text::views(aggregate.live_tui_session_ids@),
                match local_tui_claim {
                    Some(claim) => Some(*claim),
                    None => None,
                },
            ),
            None => false,
        },
{
    match aggregate {
        Some(aggregate) => {
            let live = &aggregate.live_tui_session_ids;
            if live.len() == 0 {
                return false;
            }
            match local_tui_claim {
                Some(claim) => {
                    if live.len() > 1 {
                        return true;
                    }
                    match &claim.session_id {
                        Some(expected) => !text::list_has(live, expected.as_str()),
                        None => false,
                    }
                },
                None => true,
            }
        },
        None => false,
    }
}

/// The turn that an event belongs to.
pub open spec fn turn_of(payload: Map<Seq<char>, NodeModel>) -> Option<Seq<char>> {
    match json::text_in(payload, "/turn-id"@) {
        Some(turn_id) => Some(turn_id),
        None => json::text_in(payload, "/turn_id"@),
    }
}

/// The turn that an event belongs to.
pub fn turn_id_from_event_payload(payload: &Value) -> (res: Option<String>)
    ensures
        text::opt_view(res) == turn_of(json::json_nodes(*payload)),
{
    match json::text_at(payload, "/turn-id") {
        Some(turn_id) => Some(turn_id),
        None => json::text_at(payload, "/turn_id"),
    }
}

/// The item that an event belongs to.
pub open spec fn item_of(payload: Map<Seq<char>, NodeModel>) -> Option<Seq<char>> {
    text::filled(json::text_in(payload, "/item_id"@))
}

/// The text at a place, trimmed, where it says something.
fn filled_text_at(payload: &Value, pointer: &str) -> (res: Option<String>)
    ensures
        text::opt_view(res) == text::filled(json::text_in(json::json_nodes(*payload), pointer@)),
{
    let found = json::text_at(payload, pointer);
    match text::trim_filled(text::as_deref(&found)) {
        Some(found) => Some(found.to_owned()),
        None => None,
    }
}

/// The item that an event belongs to.
pub fn item_id_from_event_payload(payload: &Value) -> (res: Option<String>)
    ensures
        text::opt_view(res) == item_of(json::json_nodes(*payload)),
{
    filled_text_at(payload, "/item_id")
}

/// Where an event came from.
pub open spec fn origin_of(payload: Map<Seq<char>, NodeModel>) -> TranscriptMirrorOrigin {
    if workspace_status::is_ingress_client(json::text_in(payload, "/client"@)) {
        TranscriptMirrorOrigin::Tui
    } else {
        TranscriptMirrorOrigin::Local
    }
}

/// Where an event came from.
pub fn transcript_origin_from_event(event: &WorkspaceStatusEventRecord) -> (res:
    TranscriptMirrorOrigin)
    ensures
        res == origin_of(event@.payload),
{
    let client = json::text_at(&event.payload, "/client");
    if is_hcodex_ingress_client(text::as_deref(&client)) {
        TranscriptMirrorOrigin::Tui
    } else {
        TranscriptMirrorOrigin::Local
    }
}

/// Whether a session is the one that is expected, if any is.
pub open spec fn is_expected(expected: Option<Seq<char>>, session_id: Seq<char>) -> bool {
    expected is None || expected == Some(session_id)
}

fn session_is_expected(expected: Option<&str>, session_id: &str) -> (res: bool)
    ensures
        res == is_expected(text::opt_str_view(expected), session_id@),
{
    match expected {
        Some(expected) => text::same_text(expected, session_id),
        None => true,
    }
}

/// What an event says: where it names its session and its text, and what it is in a transcript.
pub open spec fn said_by(event: StatusEventModel) -> Option<
    (Seq<char>, Seq<char>, TranscriptMirrorRole, TranscriptMirrorDelivery, Option<
        TranscriptMirrorPhase,
    >),
> {
    if event.event == "user_prompt_submitted"@ {
        Some(
            (
                "/session_id"@,
                "/prompt"@,
                TranscriptMirrorRole::User,
                TranscriptMirrorDelivery::Final,
                None,
            ),
        )
    } else if event.event == "turn_completed"@ {
        Some(
            (
                "/thread-id"@,
                "/last-assistant-message"@,
                TranscriptMirrorRole::Assistant,
                TranscriptMirrorDelivery::Final,
                None,
            ),
        )
    } else if event.event == "process_transcript"@ {
        let phase = json::text_in(event.payload, "/phase"@);
        if phase == Some("plan"@) {
            Some(
                (
                    "/session_id"@,
                    "/text"@,
                    TranscriptMirrorRole::Assistant,
                    TranscriptMirrorDelivery::Process,
                    Some(TranscriptMirrorPhase::Plan),
                ),
            )
        } else if phase == Some("tool"@) {
            Some(
                (
                    "/session_id"@,
                    "/text"@,
                    TranscriptMirrorRole::Assistant,
                    TranscriptMirrorDelivery::Process,
                    Some(TranscriptMirrorPhase::Tool),
                ),
            )
        } else {
            None
        }
    } else {
        None
    }
}

/// The entry of a transcript that an event makes: a prompt, a reply or a step in between, of the
/// session that is expected, which says something.
pub open spec fn entry_of(event: StatusEventModel, expected: Option<Seq<char>>) -> Option<EntryModel> {
    match said_by(event) {
        Some((session_at, text_at, role, delivery, phase)) => {
            match (
                json::text_in(event.payload, session_at),
                text::filled(json::text_in(event.payload, text_at)),
            ) {
                (Some(session_id), Some(said)) => if is_expected(expected, session_id) {
                    Some(
                        EntryModel {
                            timestamp: event.occurred_at,
                            session_id,
                            turn_id: turn_of(event.payload),
                            origin: origin_of(event.payload),
                            role,
                            delivery,
                            phase,
                            text: said,
                        },
                    )
                } else {
                    None
                },
                _ => None,
            }
        },
        None => None,
    }
}

/// An optional entry as a value.
pub open spec fn opt_entry(entry: Option<TranscriptMirrorEntry>) -> Option<EntryModel> {
    match entry {
        Some(entry) => Some(entry@),
        None => None,
    }
}

fn entry_at(
    event: &WorkspaceStatusEventRecord,
    expected: Option<&str>,
    session_at: &str,
    text_at: &str,
    role: TranscriptMirrorRole,
    delivery: TranscriptMirrorDelivery,
    phase: Option<TranscriptMirrorPhase>,
) -> (res: Option<TranscriptMirrorEntry>)
    requires
        said_by(event@) == Some((session_at@, text_at@, role, delivery, phase)),
    ensures
        opt_entry(res) == entry_of(event@, text::opt_str_view(expected)),
{
    let session_id = match json::text_at(&event.payload, session_at) {
        Some(session_id) => session_id,
        None => {
            return None;
        },
    };
    let said = match filled_text_at(&event.payload, text_at) {
        Some(said) => said,
        None => {
            return None;
        },
    };
    if !session_is_expected(expected, session_id.as_str()) {
        return None;
    }
    Some(
        TranscriptMirrorEntry {
            timestamp: event.occurred_at.clone(),
            session_id,
            turn_id: turn_id_from_event_payload(&event.payload),
            origin: transcript_origin_from_event(event),
            role,
            delivery,
            phase,
            text: said,
        },
    )
}

/// The entry of a transcript that an event makes.
pub fn local_mirror_entry_from_event(
    event: &WorkspaceStatusEventRecord,
    expected_session_id: Option<&str>,
) -> (res: Option<TranscriptMirrorEntry>)
    ensures
        opt_entry(res) == entry_of(event@, text::opt_str_view(expected_session_id)),
{
    let name = event.event.as_str();
    if text::same_text(name, "user_prompt_submitted") {
        return entry_at(
            event,
            expected_session_id,
            "/session_id",
            "/prompt",
            TranscriptMirrorRole::User,
            TranscriptMirrorDelivery::Final,
            None,
        );
    }
    if text::same_text(name, "turn_completed") {
        return entry_at(
            event,
            expected_session_id,
            "/thread-id",
            "/last-assistant-message",
            TranscriptMirrorRole::Assistant,
            TranscriptMirrorDelivery::Final,
            None,
        );
    }
    if text::same_text(name, "process_transcript") {
        let phase = json::text_at(&event.payload, "/phase");
        if text::same_opt_text(text::as_deref(&phase), Some("plan")) {
            return entry_at(
                event,
                expected_session_id,
                "/session_id",
                "/text",
                TranscriptMirrorRole::Assistant,
                TranscriptMirrorDelivery::Process,
                Some(TranscriptMirrorPhase::Plan),
            );
        }
        if text::same_opt_text(text::as_deref(&phase), Some("tool")) {
            return entry_at(
                event,
                expected_session_id,
                "/session_id",
                "/text",
                TranscriptMirrorRole::Assistant,
                TranscriptMirrorDelivery::Process,
                Some(TranscriptMirrorPhase::Tool),
            );
        }
    }
    None
}

/// A step of a turn is entered in the transcript as what the assistant did, with the phase that the
/// event names: a plan as a plan, the use of a tool as the use of a tool. A step of another phase
/// is not entered.
pub proof fn law_steps_are_entered_with_their_phase(
    event: StatusEventModel,
    expected: Option<Seq<char>>,
    session_id: Seq<char>,
    said: Seq<char>,
)
    requires
        event.event == "process_transcript"@,
        event.payload.contains_key("/session_id"@),
        event.payload["/session_id"@] == NodeModel::Text(session_id),
        event.payload.contains_key("/text"@),
        event.payload["/text"@] == NodeModel::Text(said),
    ensures
        entry_of(event, expected) is Some <==> !text::is_blank(said) && (expected is None
            || expected == Some(session_id)) && event.payload.contains_key("/phase"@) && (
        event.payload["/phase"@] == NodeModel::Text("plan"@) || event.payload["/phase"@]
            == NodeModel::Text("tool"@)),
        entry_of(event, expected) matches Some(entry) ==> {
            &&& entry.role == TranscriptMirrorRole::Assistant
            &&& entry.delivery == TranscriptMirrorDelivery::Process
            &&& entry.session_id == session_id
            &&& entry.text == text::trimmed(said)
            &&& entry.timestamp == event.occurred_at
            &&& event.payload["/phase"@] == NodeModel::Text("plan"@) ==> entry.phase == Some(
                TranscriptMirrorPhase::Plan,
            )
            &&& event.payload["/phase"@] == NodeModel::Text("tool"@) ==> entry.phase == Some(
                TranscriptMirrorPhase::Tool,
            )
        },
{
    reveal_strlit("user_prompt_submitted");
    reveal_strlit("turn_completed");
    reveal_strlit("process_transcript");
    reveal_strlit("plan");
    reveal_strlit("tool");
    assert("process_transcript"@[0] == 'p' && "user_prompt_submitted"@[0] == 'u'
        && "turn_completed"@[0] == 't');
    assert("plan"@[0] == 'p' && "tool"@[0] == 't');
}

/// Steps of different phases are never entered with the same phase.
pub proof fn law_phases_are_told_apart(
    a: StatusEventModel,
    b: StatusEventModel,
    expected: Option<Seq<char>>,
)
    requires
        a.event == "process_transcript"@,
        b.event == "process_transcript"@,
        entry_of(a, expected) is Some,
        entry_of(b, expected) is Some,
    ensures
        entry_of(a, expected)->0.phase == entry_of(b, expected)->0.phase <==> json::text_in(
            a.payload,
            "/phase"@,
        ) == json::text_in(b.payload, "/phase"@),
{
    reveal_strlit("user_prompt_submitted");
    reveal_strlit("turn_completed");
    reveal_strlit("process_transcript");
    reveal_strlit("plan");
    reveal_strlit("tool");
    assert("process_transcript"@[0] == 'p' && "user_prompt_submitted"@[0] == 'u'
        && "turn_completed"@[0] == 't');
    assert("plan"@[0] == 'p' && "tool"@[0] == 't');
}

/// A prompt is entered as what the user said, and the end of a turn as the final reply of the
/// assistant. Neither has a phase; what says nothing, or belongs to another session than the
/// expected one, is not entered.
pub proof fn law_prompts_and_replies_are_entered(
    event: StatusEventModel,
    expected: Option<Seq<char>>,
    session_id: Seq<char>,
    said: Seq<char>,
)
    ensures
        event.event == "user_prompt_submitted"@ && event.payload.contains_key("/session_id"@)
            && event.payload["/session_id"@] == NodeModel::Text(session_id)
            && event.payload.contains_key("/prompt"@) && event.payload["/prompt"@]
            == NodeModel::Text(said) ==> {
            &&& entry_of(event, expected) is Some <==> !text::is_blank(said) && (expected is None
                || expected == Some(session_id))
            &&& entry_of(event, expected) matches Some(entry) ==> entry.role
                == TranscriptMirrorRole::User && entry.delivery == TranscriptMirrorDelivery::Final
                && entry.phase is None && entry.session_id == session_id && entry.text
                == text::trimmed(said) && entry.timestamp == event.occurred_at
        },
        event.event == "turn_completed"@ && event.payload.contains_key("/thread-id"@)
            && event.payload["/thread-id"@] == NodeModel::Text(session_id)
            && event.payload.contains_key("/last-assistant-message"@)
            && event.payload["/last-assistant-message"@] == NodeModel::Text(said) ==> {
            &&& entry_of(event, expected) is Some <==> !text::is_blank(said) && (expected is None
                || expected == Some(session_id))
            &&& entry_of(event, expected) matches Some(entry) ==> entry.role
                == TranscriptMirrorRole::Assistant && entry.delivery
                == TranscriptMirrorDelivery::Final && entry.phase is None && entry.session_id
                == session_id && entry.text == text::trimmed(said) && entry.timestamp
                == event.occurred_at
        },
        event.event != "user_prompt_submitted"@ && event.event != "turn_completed"@ && event.event
            != "process_transcript"@ ==> entry_of(event, expected) is None,
{
    reveal_strlit("user_prompt_submitted");
    reveal_strlit("turn_completed");
    assert("user_prompt_submitted"@[0] == 'u' && "turn_completed"@[0] == 't');
}

/// The key under which a prompt is remembered until its turn is complete.
pub open spec fn tracking_key(workspace: Seq<char>, session_id: Seq<char>) -> Seq<char> {
    workspace + "::"@ + session_id
}

/// The key under which a prompt is remembered until its turn is complete.
pub fn local_prompt_tracking_key(workspace_key: &str, session_id: &str) -> (res: String)
    ensures
        res@ == tracking_key(workspace_key@, session_id@),
{
    text::concat3(workspace_key, "::", session_id)
}

/// Where the events of a claim begin: at the first that is not earlier than the claim.
pub fn initial_workspace_event_offset(
    events: &Vec<WorkspaceStatusEventRecord>,
    local_tui_claim: &LocalTuiSessionClaim,
) -> (res: usize)
    ensures
        res <= events@.len(),
        forall|i: int|
            0 <= i < res ==> text::text_before(
                #[trigger] event_models(events@)[i].occurred_at,
                local_tui_claim.started_at@,
            ),
        res < events@.len() ==> !text::text_before(
            event_models(events@)[res as int].occurred_at,
            local_tui_claim.started_at@,
        ),
{
    let mut at: usize = 0;
    while at < events.len()
        invariant
            at <= events@.len(),
            forall|i: int|
                0 <= i < at ==> text::text_before(
                    #[trigger] event_models(events@)[i].occurred_at,
                    local_tui_claim.started_at@,
                ),
        decreases events.len() - at,
    {
        if !text::comes_before(events[at].occurred_at.as_str(), local_tui_claim.started_at.as_str()) {
            return at;
        }
        at += 1;
    }
    at
}

/// The session that an event names.
pub open spec fn session_of(event: StatusEventModel) -> Option<Seq<char>> {
    json::text_in(event.payload, "/session_id"@)
}

/// Whether an event is a preview of the same turn as another.
pub open spec fn is_same_preview(event: StatusEventModel, first: StatusEventModel) -> bool {
    &&& event.event == "preview_text"@
    &&& session_of(event) is Some
    &&& session_of(event) == session_of(first)
    &&& turn_of(event.payload) == turn_of(first.payload)
}

/// How many events from `at` on are previews of the same turn as `first`.
pub open spec fn same_previews(
    events: Seq<StatusEventModel>,
    first: StatusEventModel,
    at: int,
) -> int
    decreases events.len() - at,
{
    if 0 <= at < events.len() && is_same_preview(events[at], first) {
        same_previews(events, first, at + 1)
    } else {
        at
    }
}

/// Where the run of previews that begins at `start` ends: previews follow upon each other that
/// are of one session and one turn.
pub open spec fn run_end(events: Seq<StatusEventModel>, start: int) -> int {
    if start >= events.len() {
        start
    } else if is_same_preview(events[start], events[start]) {
        same_previews(events, events[start], start + 1)
    } else {
        start + 1
    }
}

/// A run ends within the events, behind its first one.
pub proof fn lemma_run_end(events: Seq<StatusEventModel>, first: StatusEventModel, at: int)
    requires
        0 <= at <= events.len(),
    ensures
        at <= same_previews(events, first, at) <= events.len(),
    decreases events.len() - at,
{
    if at < events.len() && is_same_preview(events[at], first) {
        lemma_run_end(events, first, at + 1);
    }
}

/// Where the run of previews that begins at `start` ends.
pub fn preview_event_run_end(events: &Vec<WorkspaceStatusEventRecord>, start: usize) -> (res: usize)
    ensures
        res == run_end(event_models(events@), start as int),
        start < events.len() ==> start < res <= events.len(),
{
    let ghost all = event_models(events@);
    if start >= events.len() {
        return start;
    }
    let first = &events[start];
    proof {
        assert(all[start as int] == first@);
        lemma_run_end(all, first@, start + 1);
    }
    if !text::same_text(first.event.as_str(), "preview_text") {
        return start + 1;
    }
    let session_id = json::text_at(&first.payload, "/session_id");
    if session_id.is_none() {
        return start + 1;
    }
    let turn_id = turn_id_from_event_payload(&first.payload);
    let mut index: usize = start + 1;
    while index < events.len()
        invariant
            start < index <= events.len(),
            all == event_models(events@),
            first@ == all[start as int],
            text::opt_view(session_id) == session_of(first@),
            session_id is Some,
            text::opt_view(turn_id) == turn_of(first@.payload),
            same_previews(all, first@, start + 1) == same_previews(all, first@, index as int),
            is_same_preview(first@, first@),
        decreases events.len() - index,
    {
        let candidate = &events[index];
        proof {
            assert(all[index as int] == candidate@);
        }
        let candidate_session = json::text_at(&candidate.payload, "/session_id");
        let candidate_turn = turn_id_from_event_payload(&candidate.payload);
        if !text::same_text(candidate.event.as_str(), "preview_text") || candidate_session.is_none()
            || !text::same_opt_text(text::as_deref(&candidate_session), text::as_deref(&session_id))
            || !text::same_opt_text(text::as_deref(&candidate_turn), text::as_deref(&turn_id)) {
            return index;
        }
        index += 1;
    }
    index
}

/// The event that stands for the run of previews at `at`, which is the newest of them, or the
/// event there, and where the next event stands.
pub open spec fn event_taken(events: Seq<StatusEventModel>, at: int) -> (StatusEventModel, int) {
    if events[at].event == "preview_text"@ {
        (events[run_end(events, at) - 1], run_end(events, at))
    } else {
        (events[at], at + 1)
    }
}

/// What Telegram shows of a turn of a local client.
#[derive(Debug)]
pub struct MirrorPreviewState {
    pub preview: TurnPreview,
    pub active_turn_id: Option<String>,
    pub active_item_id: Option<String>,
    pub owns_active_turn: bool,
    pub latest_preview_text: String,
}

/// What Telegram shows of a turn of a local client, as a value.
pub struct MirrorPreviewModel {
    pub preview: PreviewModel,
    pub last_sent_text: Seq<char>,
    pub active_turn_id: Option<Seq<char>>,
    pub active_item_id: Option<Seq<char>>,
    pub owns_active_turn: bool,
    pub latest_preview_text: Seq<char>,
}

impl View for MirrorPreviewState {
    type V = MirrorPreviewModel;

    open spec fn view(&self) -> MirrorPreviewModel {
        MirrorPreviewModel {
            preview: self.preview.renderer@,
            last_sent_text: self.preview.last_sent_text@,
            active_turn_id: text::opt_view(self.active_turn_id),
            active_item_id: text::opt_view(self.active_item_id),
            owns_active_turn: self.owns_active_turn,
            latest_preview_text: self.latest_preview_text@,
        }
    }
}

impl MirrorPreviewModel {
    /// Nothing shown yet of a turn.
    pub open spec fn fresh(self, turn_id: Option<Seq<char>>) -> MirrorPreviewModel {
        MirrorPreviewModel {
            preview: PreviewModel::fresh(self.preview.max_chars),
            last_sent_text: Seq::empty(),
            active_turn_id: turn_id,
            active_item_id: None,
            owns_active_turn: false,
            latest_preview_text: Seq::empty(),
        }
    }

    /// With a turn begun, unless it had begun before.
    pub open spec fn begun(self, turn_id: Option<Seq<char>>) -> MirrorPreviewModel {
        if self.active_turn_id == turn_id {
            self
        } else {
            self.fresh(turn_id)
        }
    }

    /// With the turn owned or not, if it is the active one.
    pub open spec fn with_ownership(self, turn_id: Option<Seq<char>>, owns: bool) -> MirrorPreviewModel {
        if self.active_turn_id == turn_id {
            MirrorPreviewModel { owns_active_turn: owns, ..self }
        } else {
            self
        }
    }

    /// Whether a turn is the active one, and owned.
    pub open spec fn owns(self, turn_id: Option<Seq<char>>) -> bool {
        self.owns_active_turn && self.active_turn_id == turn_id
    }

    /// Whether a preview is an older state of what is shown: a beginning of it, in the same item of
    /// the same turn.
    pub open spec fn is_regressive(
        self,
        turn_id: Option<Seq<char>>,
        item_id: Option<Seq<char>>,
        shown: Seq<char>,
    ) -> bool {
        let shown = text::trimmed(shown);
        &&& shown.len() > 0
        &&& self.active_turn_id == turn_id
        &&& self.active_item_id == item_id
        &&& self.latest_preview_text != shown
        &&& shown.is_prefix_of(self.latest_preview_text)
    }

    /// With a preview shown, unless it says nothing or is an older state of what is shown.
    pub open spec fn consumed(
        self,
        turn_id: Option<Seq<char>>,
        item_id: Option<Seq<char>>,
        shown: Seq<char>,
    ) -> MirrorPreviewModel {
        if text::is_blank(shown) || self.is_regressive(turn_id, item_id, shown) {
            self
        } else {
            MirrorPreviewModel {
                preview: self.preview.after_draft(text::trimmed(shown)),
                active_item_id: item_id,
                latest_preview_text: text::trimmed(shown),
                ..self
            }
        }
    }

    /// With the reply shown.
    pub open spec fn completed(self, reply: Seq<char>) -> MirrorPreviewModel {
        MirrorPreviewModel { preview: self.preview.completed(reply), ..self }
    }
}

fn copy_opt(text: Option<&str>) -> (res: Option<String>)
    ensures
        text::opt_view(res) == text::opt_str_view(text),
{
    match text {
        Some(text) => Some(text.to_owned()),
        None => None,
    }
}

impl MirrorPreviewState {
    /// Nothing shown yet.
    pub fn new(preview: TurnPreview) -> (res: Self)
        ensures
            res@ == (MirrorPreviewModel {
                preview: preview.renderer@,
                last_sent_text: preview.last_sent_text@,
                active_turn_id: None,
                active_item_id: None,
                owns_active_turn: false,
                latest_preview_text: Seq::empty(),
            }),
    {
        MirrorPreviewState {
            preview,
            active_turn_id: None,
            active_item_id: None,
            owns_active_turn: false,
            latest_preview_text: String::new(),
        }
    }

    /// Begins anew, with no turn.
    pub fn reset_for_new_turn(&mut self)
        ensures
            final(self)@ == old(self)@.fresh(None),
    {
        self.preview.reset_for_new_turn();
        self.active_turn_id = None;
        self.active_item_id = None;
        self.owns_active_turn = false;
        self.latest_preview_text = String::new();
    }

    /// Begins a turn, unless it had begun before; tells whether it had not.
    pub fn begin_turn(&mut self, turn_id: Option<&str>) -> (res: bool)
        ensures
            final(self)@ == old(self)@.begun(text::opt_str_view(turn_id)),
            res == (old(self)@.active_turn_id != text::opt_str_view(turn_id)),
    {
        if text::same_opt_text(text::as_deref(&self.active_turn_id), turn_id) {
            return false;
        }
        self.preview.reset_for_new_turn();
        self.active_turn_id = copy_opt(turn_id);
        self.active_item_id = None;
        self.owns_active_turn = false;
        self.latest_preview_text = String::new();
        true
    }

    /// Notes whether the turn is owned, if it is the active one.
    pub fn set_ownership(&mut self, turn_id: Option<&str>, owns_active_turn: bool)
        ensures
            final(self)@ == old(self)@.with_ownership(
                text::opt_str_view(turn_id),
                owns_active_turn,
            ),
    {
        if text::same_opt_text(text::as_deref(&self.active_turn_id), turn_id) {
            self.owns_active_turn = owns_active_turn;
        }
    }

    /// Whether a turn is the active one, and owned.
    pub fn owns_turn(&self, turn_id: Option<&str>) -> (res: bool)
        ensures
            res == self@.owns(text::opt_str_view(turn_id)),
    {
        self.owns_active_turn && text::same_opt_text(text::as_deref(&self.active_turn_id), turn_id)
    }

    /// Whether a preview is an older state of what is shown.
    pub fn should_skip_regressive_preview(
        &self,
        turn_id: Option<&str>,
        item_id: Option<&str>,
        shown: &str,
    ) -> (res: bool)
        ensures
            res == self@.is_regressive(
                text::opt_str_view(turn_id),
                text::opt_str_view(item_id),
                shown@,
            ),
    {
        let shown = text::trim(shown);
        !shown.is_empty() && text::same_opt_text(text::as_deref(&self.active_turn_id), turn_id)
            && text::same_opt_text(text::as_deref(&self.active_item_id), item_id)
            && !text::same_text(self.latest_preview_text.as_str(), shown) && text::starts_with(
            self.latest_preview_text.as_str(),
            shown,
        )
    }

    /// Shows a preview, unless it says nothing or is an older state of what is shown; tells whether
    /// the preview shows something else than before.
    pub fn consume_preview_text(
        &mut self,
        turn_id: Option<&str>,
        item_id: Option<&str>,
        shown: &str,
    ) -> (res: bool)
        ensures
            final(self)@ == old(self)@.consumed(
                text::opt_str_view(turn_id),
                text::opt_str_view(item_id),
                shown@,
            ),
            res == (final(self)@.preview.latest_render != old(self)@.preview.latest_render),
    {
        let trimmed = text::trim(shown);
        if trimmed.is_empty() || self.should_skip_regressive_preview(turn_id, item_id, shown) {
            return false;
        }
        self.active_item_id = copy_opt(item_id);
        self.latest_preview_text = trimmed.to_owned();
        self.preview.renderer.consume_preview_text(trimmed)
    }

    /// Shows the reply; tells whether the preview shows something else than before.
    pub fn complete(&mut self, reply: &str) -> (res: bool)
        ensures
            final(self)@ == old(self)@.completed(reply@),
            res == (final(self)@.preview.latest_render != old(self)@.preview.latest_render),
    {
        self.preview.renderer.complete_with_final_text(reply)
    }
}

/// A turn that has begun is the active one, and one that begins is owned by nobody; to begin the
/// active turn again changes nothing.
pub proof fn law_begun_turn_is_active(preview: MirrorPreviewModel, turn_id: Option<Seq<char>>)
    ensures
        preview.begun(turn_id).active_turn_id == turn_id,
        preview.active_turn_id != turn_id ==> !preview.begun(turn_id).owns(turn_id),
        preview.begun(turn_id).begun(turn_id) == preview.begun(turn_id),
{
}

/// What a preview shows of an item of a turn never falls back to a beginning of it.
pub proof fn law_previews_do_not_fall_back(
    preview: MirrorPreviewModel,
    item_id: Option<Seq<char>>,
    shown: Seq<char>,
)
    requires
        preview.active_item_id == item_id,
    ensures
        ({
            let after = preview.consumed(preview.active_turn_id, item_id, shown);
            after.latest_preview_text == preview.latest_preview_text
                || !after.latest_preview_text.is_prefix_of(preview.latest_preview_text)
        }),
{
}

/// What an item at the end of a list adds to what the list has.
proof fn lemma_push_contains(list: Seq<Seq<char>>, item: Seq<char>)
    ensures
        forall|s: Seq<char>| #[trigger]
            list.push(item).contains(s) <==> (list.contains(s) || s == item),
{
    assert forall|s: Seq<char>| list.contains(s) || s == item implies #[trigger] list.push(
        item,
    ).contains(s) by {
        if s == item {
            assert(list.push(item)[list.len() as int] == s);
        } else {
            let i = choose|i: int| 0 <= i < list.len() && list[i] == s;
            assert(list.push(item)[i] == s);
        }
    }
}

/// Remembers a key.
fn add_key(keys: &mut Vec<String>, key: String)
    ensures
        text::views(final(keys)@).to_set() == text::views(old(keys)@).to_set().insert(key@),
{
    let ghost before = text::views(keys@);
    let ghost added = key@;
    if text::list_has(keys, key.as_str()) {
        proof {
            assert(before.to_set().insert(added) =~= before.to_set());
        }
        return ;
    }
    text::push_line(keys, key);
    proof {
        lemma_push_contains(before, added);
        assert(before.push(added).to_set() =~= before.to_set().insert(added));
    }
}

/// Forgets a key.
fn remove_key(keys: &mut Vec<String>, key: &str)
    ensures
        text::views(final(keys)@).to_set() == text::views(old(keys)@).to_set().remove(key@),
{
    let ghost all = text::views(keys@);
    let mut kept: Vec<String> = Vec::new();
    let mut i: usize = 0;
    proof {
        assert(all.take(0) =~= Seq::empty());
        assert(text::views(kept@) =~= Seq::empty());
    }
    while i < keys.len()
        invariant
            i <= keys.len(),
            all == text::views(keys@),
            forall|s: Seq<char>| #[trigger]
                text::views(kept@).contains(s) <==> (all.take(i as int).contains(s) && s != key@),
        decreases keys.len() - i,
    {
        let ghost before = text::views(kept@);
        proof {
            assert(all.take(i + 1) =~= all.take(i as int).push(all[i as int]));
            lemma_push_contains(all.take(i as int), all[i as int]);
            assert(all[i as int] == keys@[i as int]@);
            lemma_push_contains(before, all[i as int]);
        }
        if !text::same_text(keys[i].as_str(), key) {
            text::push_line(&mut kept, keys[i].clone());
        }
        i += 1;
    }
    proof {
        assert(all.take(i as int) =~= all);
        assert(text::views(kept@).to_set() =~= all.to_set().remove(key@));
    }
    *keys = kept;
}

/// The keys that are not of a workspace: those that do not begin with it.
pub open spec fn keys_elsewhere(keys: Seq<Seq<char>>, workspace: Seq<char>) -> Seq<Seq<char>> {
    keys.filter(|key: Seq<char>| !workspace.is_prefix_of(key))
}

/// Forgets the prompts of a workspace.
pub fn drop_workspace_prompts(keys: &Vec<String>, workspace_key: &str) -> (res: Vec<String>)
    ensures
        text::views(res@) == keys_elsewhere(text::views(keys@), workspace_key@),
{
    let ghost all = text::views(keys@);
    let mut kept: Vec<String> = Vec::new();
    let mut i: usize = 0;
    proof {
        reveal(Seq::filter);
        assert(all.take(0) =~= Seq::empty());
        assert(text::views(kept@) =~= keys_elsewhere(all.take(0), workspace_key@));
    }
    while i < keys.len()
        invariant
            i <= keys.len(),
            all == text::views(keys@),
            text::views(kept@) == keys_elsewhere(all.take(i as int), workspace_key@),
        decreases keys.len() - i,
    {
        proof {
            reveal(Seq::filter);
            assert(all.take(i + 1).drop_last() =~= all.take(i as int));
            assert(all.take(i + 1).last() == keys@[i as int]@);
        }
        if !text::starts_with(keys[i].as_str(), workspace_key) {
            text::push_line(&mut kept, keys[i].clone());
        }
        i += 1;
    }
    proof {
        assert(all.take(i as int) =~= all);
    }
    kept
}

/// The keys that are still in use.
pub open spec fn keys_in_use(keys: Seq<Seq<char>>, active: Seq<Seq<char>>) -> Seq<Seq<char>> {
    keys.filter(|key: Seq<char>| active.contains(key))
}

/// The keys that are still in use: what is kept for a thread goes with the thread.
pub fn retain_active(keys: &Vec<String>, active: &Vec<String>) -> (res: Vec<String>)
    ensures
        text::views(res@) == keys_in_use(text::views(keys@), text::views(active@)),
{
    let ghost all = text::views(keys@);
    let mut kept: Vec<String> = Vec::new();
    let mut i: usize = 0;
    proof {
        reveal(Seq::filter);
        assert(all.take(0) =~= Seq::empty());
        assert(text::views(kept@) =~= keys_in_use(all.take(0), text::views(active@)));
    }
    while i < keys.len()
        invariant
            i <= keys.len(),
            all == text::views(keys@),
            text::views(kept@) == keys_in_use(all.take(i as int), text::views(active@)),
        decreases keys.len() - i,
    {
        proof {
            reveal(Seq::filter);
            assert(all.take(i + 1).drop_last() =~= all.take(i as int));
            assert(all.take(i + 1).last() == keys@[i as int]@);
        }
        if text::list_has(active, keys[i].as_str()) {
            text::push_line(&mut kept, keys[i].clone());
        }
        i += 1;
    }
    proof {
        assert(all.take(i as int) =~= all);
    }
    kept
}

/// The title that a topic is to get, unless it has it already or there is no topic.
pub fn title_to_apply(
    metadata: &ThreadMetadata,
    session: Option<&SessionBinding>,
    applied: Option<&str>,
) -> (res: Option<String>)
    ensures
        ({
            let binding = repository::opt_binding_ref(session);
            let title = title_sync::topic_title(
                metadata@,
                match binding {
                    Some(binding) => binding.workspace_cwd,
                    None => None,
                },
                thread_state::binding_status_of(binding) == BindingStatus::Broken,
            );
            text::opt_view(res) == if metadata@.message_thread_id is None
                || text::opt_str_view(applied) == Some(title) {
                None
            } else {
                Some(title)
            }
        }),
{
    if metadata.message_thread_id.is_none() {
        return None;
    }
    let title = title_sync::title_for_binding(metadata, session);
    if text::same_opt_text(applied, Some(title.as_str())) {
        return None;
    }
    Some(title)
}

/// What becomes of a preview.
#[derive(Debug, Clone, Copy, PartialEq, Eq, Structural)]
pub enum DraftDecision {
    Applied,
    SkippedClaimDenied,
    SkippedRegressive,
}

impl DraftDecision {
    /// The decision, in a word.
    pub fn as_str(self) -> (res: &'static str)
        ensures
            res@ == match self {
                DraftDecision::Applied => "applied"@,
                DraftDecision::SkippedClaimDenied => "skipped_claim_denied"@,
                DraftDecision::SkippedRegressive => "skipped_regressive"@,
            },
    {
        match self {
            DraftDecision::Applied => "applied",
            DraftDecision::SkippedClaimDenied => "skipped_claim_denied",
            DraftDecision::SkippedRegressive => "skipped_regressive",
        }
    }
}

/// How a turn came to be owned, or not.
#[derive(Debug, Clone, Copy, PartialEq, Eq, Structural)]
pub enum DraftClaim {
    Claimed,
    Existing,
    AlreadyOwned,
    NotApplicable,
}

impl DraftClaim {
    /// The claim, in a word.
    pub fn as_str(self) -> (res: &'static str)
        ensures
            res@ == match self {
                DraftClaim::Claimed => "claimed"@,
                DraftClaim::Existing => "existing"@,
                DraftClaim::AlreadyOwned => "already_owned"@,
                DraftClaim::NotApplicable => "not_applicable"@,
            },
    {
        match self {
            DraftClaim::Claimed => "claimed",
            DraftClaim::Existing => "existing",
            DraftClaim::AlreadyOwned => "already_owned",
            DraftClaim::NotApplicable => "not_applicable",
        }
    }
}

/// A preview of a local client, with what was shown before it.
#[derive(Debug)]
pub struct DraftNote {
    pub session_id: String,
    pub turn_id: Option<String>,
    pub item_id: Option<String>,
    pub occurred_at: String,
    pub text: String,
    pub previous_turn_id: Option<String>,
    pub previous_item_id: Option<String>,
    pub previous_text: String,
}

/// A preview of a local client, as a value.
pub struct DraftModel {
    pub session_id: Seq<char>,
    pub turn_id: Option<Seq<char>>,
    pub item_id: Option<Seq<char>>,
    pub occurred_at: Seq<char>,
    pub text: Seq<char>,
    pub previous_turn_id: Option<Seq<char>>,
    pub previous_item_id: Option<Seq<char>>,
    pub previous_text: Seq<char>,
}

impl View for DraftNote {
    type V = DraftModel;

    open spec fn view(&self) -> DraftModel {
        DraftModel {
            session_id: self.session_id@,
            turn_id: text::opt_view(self.turn_id),
            item_id: text::opt_view(self.item_id),
            occurred_at: self.occurred_at@,
            text: self.text@,
            previous_turn_id: text::opt_view(self.previous_turn_id),
            previous_item_id: text::opt_view(self.previous_item_id),
            previous_text: self.previous_text@,
        }
    }
}

impl DraftNote {
    /// Whether the preview is of another turn than the one before it.
    pub fn is_turn_transition(&self) -> (res: bool)
        ensures
            res == (self@.previous_turn_id != self@.turn_id),
    {
        !text::same_opt_text(text::as_deref(&self.previous_turn_id), text::as_deref(&self.turn_id))
    }

    /// Whether the preview is of another item than the one before it.
    pub fn is_item_transition(&self) -> (res: bool)
        ensures
            res == (self@.previous_item_id != self@.item_id),
    {
        !text::same_opt_text(text::as_deref(&self.previous_item_id), text::as_deref(&self.item_id))
    }
}

/// How far the mirroring of events has come.
#[derive(Debug)]
pub enum MirrorStage {
    AppendingPrompt { entry: TranscriptMirrorEntry },
    ClaimingEcho { entry: TranscriptMirrorEntry },
    SendingEcho { entry: TranscriptMirrorEntry },
    CommittingEcho,
    ClaimingDraft { note: DraftNote },
    RecordingDraft,
    Appending { entry: TranscriptMirrorEntry },
    ClaimingReply { entry: TranscriptMirrorEntry, inserted: bool },
    SendingReply { entry: TranscriptMirrorEntry, inserted: bool, completed: bool },
    CommittingReply,
    Finished,
}

/// How far the mirroring of events has come, as a value.
pub enum MirrorStageModel {
    AppendingPrompt { entry: EntryModel },
    ClaimingEcho { entry: EntryModel },
    SendingEcho { entry: EntryModel },
    CommittingEcho,
    ClaimingDraft { note: DraftModel },
    RecordingDraft,
    Appending { entry: EntryModel },
    ClaimingReply { entry: EntryModel, inserted: bool },
    SendingReply { entry: EntryModel, inserted: bool, completed: bool },
    CommittingReply,
    Finished,
}

impl View for MirrorStage {
    type V = MirrorStageModel;

    open spec fn view(&self) -> MirrorStageModel {
        match *self {
            MirrorStage::AppendingPrompt { entry } => MirrorStageModel::AppendingPrompt {
                entry: entry@,
            },
            MirrorStage::ClaimingEcho { entry } => MirrorStageModel::ClaimingEcho { entry: entry@ },
            MirrorStage::SendingEcho { entry } => MirrorStageModel::SendingEcho { entry: entry@ },
            MirrorStage::CommittingEcho => MirrorStageModel::CommittingEcho,
            MirrorStage::ClaimingDraft { note } => MirrorStageModel::ClaimingDraft { note: note@ },
            MirrorStage::RecordingDraft => MirrorStageModel::RecordingDraft,
            MirrorStage::Appending { entry } => MirrorStageModel::Appending { entry: entry@ },
            MirrorStage::ClaimingReply { entry, inserted } => MirrorStageModel::ClaimingReply {
                entry: entry@,
                inserted,
            },
            MirrorStage::SendingReply { entry, inserted, completed } => {
                MirrorStageModel::SendingReply { entry: entry@, inserted, completed }
            },
            MirrorStage::CommittingReply => MirrorStageModel::CommittingReply,
            MirrorStage::Finished => MirrorStageModel::Finished,
        }
    }
}

/// What came of a step.
#[derive(Debug)]
pub enum MirrorEvent {
    Done,
    /// Whether the entry is new to the transcript.
    Inserted { inserted: bool },
    /// Whether the delivery is this one's to make.
    Claimed { claimed: bool },
    Failed(String),
}

/// What is to be done next.
#[derive(Debug)]
pub enum MirrorStep {
    /// Put an entry into the transcript.
    Append { entry: TranscriptMirrorEntry },
    ClaimEcho { entry: TranscriptMirrorEntry },
    /// Show the prompt of a local client.
    SendEcho { entry: TranscriptMirrorEntry },
    CommitEcho { entry: TranscriptMirrorEntry },
    ClaimDraft { session_id: String, turn_id: Option<String> },
    /// Put on record what became of a preview.
    RecordDraft { note: DraftNote, decision: DraftDecision, claim: DraftClaim },
    ClaimReply { entry: TranscriptMirrorEntry },
    /// Send the reply of a turn.
    SendReply { entry: TranscriptMirrorEntry },
    CommitReply { entry: TranscriptMirrorEntry, preview_completed: bool, mirror_inserted: bool },
    Finish { outcome: Result<(), FlowError> },
}

/// What is to be done next, as a value.
pub enum MirrorStepModel {
    Append { entry: EntryModel },
    ClaimEcho { entry: EntryModel },
    SendEcho { entry: EntryModel },
    CommitEcho { entry: EntryModel },
    ClaimDraft { session_id: Seq<char>, turn_id: Option<Seq<char>> },
    RecordDraft { note: DraftModel, decision: DraftDecision, claim: DraftClaim },
    ClaimReply { entry: EntryModel },
    SendReply { entry: EntryModel },
    CommitReply { entry: EntryModel, preview_completed: bool, mirror_inserted: bool },
    Finish { outcome: Result<(), FlowError> },
}

impl View for MirrorStep {
    type V = MirrorStepModel;

    open spec fn view(&self) -> MirrorStepModel {
        match *self {
            MirrorStep::Append { entry } => MirrorStepModel::Append { entry: entry@ },
            MirrorStep::ClaimEcho { entry } => MirrorStepModel::ClaimEcho { entry: entry@ },
            MirrorStep::SendEcho { entry } => MirrorStepModel::SendEcho { entry: entry@ },
            MirrorStep::CommitEcho { entry } => MirrorStepModel::CommitEcho { entry: entry@ },
            MirrorStep::ClaimDraft { session_id, turn_id } => MirrorStepModel::ClaimDraft {
                session_id: session_id@,
                turn_id: text::opt_view(turn_id),
            },
            MirrorStep::RecordDraft { note, decision, claim } => MirrorStepModel::RecordDraft {
                note: note@,
                decision,
                claim,
            },
            MirrorStep::ClaimReply { entry } => MirrorStepModel::ClaimReply { entry: entry@ },
            MirrorStep::SendReply { entry } => MirrorStepModel::SendReply { entry: entry@ },
            MirrorStep::CommitReply { entry, preview_completed, mirror_inserted } => {
                MirrorStepModel::CommitReply { entry: entry@, preview_completed, mirror_inserted }
            },
            MirrorStep::Finish { outcome } => MirrorStepModel::Finish { outcome },
        }
    }
}

/// The mirroring of what happened in a workspace since it was last looked at.
#[derive(Debug)]
pub struct MirrorRun {
    pub events: Vec<WorkspaceStatusEventRecord>,
    /// Where the next event stands.
    pub next: usize,
    pub workspace_key: String,
    /// The session of the local client, where it is known.
    pub expected_session_id: Option<String>,
    /// The prompts whose turns are not complete.
    pub pending_prompts: Vec<String>,
    pub preview: MirrorPreviewState,
    /// Whether the preview shows something else than before the last event was reported.
    pub draft_due: bool,
    pub stage: MirrorStage,
}

/// The mirroring of what happened in a workspace, as a value.
pub struct MirrorModel {
    pub events: Seq<StatusEventModel>,
    pub next: int,
    pub workspace: Seq<char>,
    pub expected: Option<Seq<char>>,
    pub pending: Set<Seq<char>>,
    pub preview: MirrorPreviewModel,
    pub draft_due: bool,
    pub stage: MirrorStageModel,
}

impl View for MirrorRun {
    type V = MirrorModel;

    open spec fn view(&self) -> MirrorModel {
        MirrorModel {
            events: event_models(self.events@),
            next: self.next as int,
            workspace: self.workspace_key@,
            expected: text::opt_view(self.expected_session_id),
            pending: text::views(self.pending_prompts@).to_set(),
            preview: self.preview@,
            draft_due: self.draft_due,
            stage: self.stage@,
        }
    }
}

impl MirrorModel {
    /// With another preview, which is to be shown if it shows something else.
    pub open spec fn showing(self, preview: MirrorPreviewModel) -> MirrorModel {
        MirrorModel {
            preview,
            draft_due: self.draft_due || preview.preview.latest_render
                != self.preview.preview.latest_render,
            ..self
        }
    }

    /// The end of the mirroring.
    pub open spec fn ended(self, outcome: Result<(), FlowError>) -> (MirrorModel, MirrorStepModel) {
        (
            MirrorModel { stage: MirrorStageModel::Finished, ..self },
            MirrorStepModel::Finish { outcome },
        )
    }

    /// What becomes of a preview of an owned turn: it is shown, unless it is an older state of what
    /// is shown.
    pub open spec fn drafted(self, note: DraftModel, claim: DraftClaim) -> (
        MirrorModel,
        MirrorStepModel,
    ) {
        let skipped = self.preview.is_regressive(note.turn_id, note.item_id, note.text);
        let run = if skipped {
            self
        } else {
            self.showing(self.preview.consumed(note.turn_id, note.item_id, note.text))
        };
        (
            MirrorModel { stage: MirrorStageModel::RecordingDraft, ..run },
            MirrorStepModel::RecordDraft {
                note,
                decision: if skipped {
                    DraftDecision::SkippedRegressive
                } else {
                    DraftDecision::Applied
                },
                claim,
            },
        )
    }

    /// What follows from a preview: its turn begins, and must be owned before it is shown.
    pub open spec fn draft_came(self, note: DraftModel) -> (MirrorModel, MirrorStepModel) {
        let begun = MirrorModel { preview: self.preview.begun(note.turn_id), ..self };
        if note.turn_id is None {
            MirrorModel { preview: begun.preview.with_ownership(None, true), ..begun }.drafted(
                note,
                DraftClaim::NotApplicable,
            )
        } else if begun.preview.owns(note.turn_id) {
            begun.drafted(note, DraftClaim::AlreadyOwned)
        } else {
            (
                MirrorModel { stage: MirrorStageModel::ClaimingDraft { note }, ..begun },
                MirrorStepModel::ClaimDraft {
                    session_id: note.session_id,
                    turn_id: note.turn_id,
                },
            )
        }
    }

    /// What follows once a turn was to be claimed for its previews.
    pub open spec fn draft_claimed(self, note: DraftModel, claimed: bool) -> (
        MirrorModel,
        MirrorStepModel,
    ) {
        let run = MirrorModel {
            preview: self.preview.with_ownership(note.turn_id, claimed),
            ..self
        };
        let claim = if claimed {
            DraftClaim::Claimed
        } else {
            DraftClaim::Existing
        };
        if run.preview.owns(note.turn_id) {
            run.drafted(note, claim)
        } else {
            (
                MirrorModel { stage: MirrorStageModel::RecordingDraft, ..run },
                MirrorStepModel::RecordDraft {
                    note,
                    decision: DraftDecision::SkippedClaimDenied,
                    claim,
                },
            )
        }
    }

    /// The preview that an event brings, if it is one of the expected session.
    pub open spec fn draft_in(self, event: StatusEventModel) -> Option<DraftModel> {
        match (session_of(event), json::text_in(event.payload, "/text"@)) {
            (Some(session_id), Some(shown)) => if is_expected(self.expected, session_id) {
                Some(
                    DraftModel {
                        session_id,
                        turn_id: turn_of(event.payload),
                        item_id: item_of(event.payload),
                        occurred_at: event.occurred_at,
                        text: shown,
                        previous_turn_id: self.preview.active_turn_id,
                        previous_item_id: self.preview.active_item_id,
                        previous_text: self.preview.latest_preview_text,
                    },
                )
            } else {
                None
            },
            _ => None,
        }
    }

    /// The prompts that are remembered behind an event: a turn that is complete takes its prompt
    /// along.
    pub open spec fn pending_after(self, event: StatusEventModel) -> Set<Seq<char>> {
        match json::text_in(event.payload, "/thread-id"@) {
            Some(session_id) => if event.event == "turn_completed"@ && is_expected(
                self.expected,
                session_id,
            ) {
                self.pending.remove(tracking_key(self.workspace, session_id))
            } else {
                self.pending
            },
            None => self.pending,
        }
    }

    /// What follows from an event that is no preview, if anything does: a prompt begins a turn, and
    /// whatever has an entry is put into the transcript.
    pub open spec fn entry_came(self, event: StatusEventModel) -> Option<
        (MirrorModel, MirrorStepModel),
    > {
        let run = MirrorModel { pending: self.pending_after(event), ..self };
        match entry_of(event, self.expected) {
            None => None,
            Some(entry) => if event.event == "user_prompt_submitted"@ {
                Some(
                    (
                        MirrorModel {
                            pending: run.pending.insert(
                                tracking_key(self.workspace, entry.session_id),
                            ),
                            preview: run.preview.fresh(None),
                            stage: MirrorStageModel::AppendingPrompt { entry },
                            ..run
                        },
                        MirrorStepModel::Append { entry },
                    ),
                )
            } else {
                Some(
                    (
                        MirrorModel { stage: MirrorStageModel::Appending { entry }, ..run },
                        MirrorStepModel::Append { entry },
                    ),
                )
            },
        }
    }

    /// The first step for the event that comes next, where there is one to take.
    pub open spec fn going_on(self) -> (MirrorModel, MirrorStepModel)
        decreases self.events.len() - self.next,
    {
        if self.next < 0 || self.next >= self.events.len() {
            self.ended(Ok(()))
        } else {
            let (event, after) = event_taken(self.events, self.next);
            let run = MirrorModel { next: after, ..self };
            proof {
                lemma_run_end(self.events, self.events[self.next], self.next + 1);
            }
            if event.event == "preview_text"@ {
                match run.draft_in(event) {
                    Some(note) => run.draft_came(note),
                    None => run.going_on(),
                }
            } else {
                match run.entry_came(event) {
                    Some(next) => next,
                    None => MirrorModel { pending: run.pending_after(event), ..run }.going_on(),
                }
            }
        }
    }

    /// What follows once the reply of a turn was to be claimed: the preview of an owned turn shows
    /// it, and it is sent if it is this one's to send.
    pub open spec fn reply_claimed(self, entry: EntryModel, inserted: bool, claimed: bool) -> (
        MirrorModel,
        MirrorStepModel,
    ) {
        let begun = MirrorModel { preview: self.preview.begun(entry.turn_id), ..self };
        let run = if begun.preview.owns(entry.turn_id) {
            begun.showing(begun.preview.completed(entry.text))
        } else {
            begun
        };
        let completed = run.preview.preview.latest_render != begun.preview.preview.latest_render;
        if claimed {
            (
                MirrorModel {
                    stage: MirrorStageModel::SendingReply { entry, inserted, completed },
                    ..run
                },
                MirrorStepModel::SendReply { entry },
            )
        } else {
            run.going_on()
        }
    }

    /// What follows from an event.
    pub open spec fn advanced(self, event: MirrorEvent) -> (MirrorModel, MirrorStepModel) {
        let run = MirrorModel { draft_due: false, stage: MirrorStageModel::Finished, ..self };
        match (self.stage, event) {
            (MirrorStageModel::Finished, _) => run.ended(Err(FlowError::OutOfTurn)),
            (MirrorStageModel::CommittingEcho, _) => run.going_on(),
            (MirrorStageModel::CommittingReply, _) => run.going_on(),
            (_, MirrorEvent::Failed(reason)) => run.ended(Err(FlowError::Outside(reason))),
            (MirrorStageModel::AppendingPrompt { entry }, MirrorEvent::Inserted { inserted }) => {
                if inserted {
                    (
                        MirrorModel { stage: MirrorStageModel::ClaimingEcho { entry }, ..run },
                        MirrorStepModel::ClaimEcho { entry },
                    )
                } else {
                    run.going_on()
                }
            },
            (MirrorStageModel::ClaimingEcho { entry }, MirrorEvent::Claimed { claimed }) => {
                if claimed {
                    (
                        MirrorModel { stage: MirrorStageModel::SendingEcho { entry }, ..run },
                        MirrorStepModel::SendEcho { entry },
                    )
                } else {
                    run.going_on()
                }
            },
            (MirrorStageModel::SendingEcho { entry }, MirrorEvent::Done) => (
                MirrorModel { stage: MirrorStageModel::CommittingEcho, ..run },
                MirrorStepModel::CommitEcho { entry },
            ),
            (MirrorStageModel::ClaimingDraft { note }, MirrorEvent::Claimed { claimed }) => {
                run.draft_claimed(note, claimed)
            },
            (MirrorStageModel::RecordingDraft, MirrorEvent::Done) => run.going_on(),
            (MirrorStageModel::Appending { entry }, MirrorEvent::Inserted { inserted }) => {
                if entry.delivery == TranscriptMirrorDelivery::Final {
                    (
                        MirrorModel {
                            stage: MirrorStageModel::ClaimingReply { entry, inserted },
                            ..run
                        },
                        MirrorStepModel::ClaimReply { entry },
                    )
                } else {
                    run.going_on()
                }
            },
            (
                MirrorStageModel::ClaimingReply { entry, inserted },
                MirrorEvent::Claimed { claimed },
            ) => run.reply_claimed(entry, inserted, claimed),
            (
                MirrorStageModel::SendingReply { entry, inserted, completed },
                MirrorEvent::Done,
            ) => (
                MirrorModel { stage: MirrorStageModel::CommittingReply, ..run },
                MirrorStepModel::CommitReply {
                    entry,
                    preview_completed: completed,
                    mirror_inserted: inserted,
                },
            ),
            _ => run.ended(Err(FlowError::OutOfTurn)),
        }
    }
}

impl MirrorRun {
    fn end(&mut self, outcome: Result<(), FlowError>) -> (res: MirrorStep)
        ensures
            (final(self)@, res@) == old(self)@.ended(outcome),
    {
        self.stage = MirrorStage::Finished;
        MirrorStep::Finish { outcome }
    }

    fn draft(&mut self, note: DraftNote, claim: DraftClaim) -> (res: MirrorStep)
        ensures
            (final(self)@, res@) == old(self)@.drafted(note@, claim),
    {
        let turn_id = text::as_deref(&note.turn_id);
        let item_id = text::as_deref(&note.item_id);
        let skipped = self.preview.should_skip_regressive_preview(
            turn_id,
            item_id,
            note.text.as_str(),
        );
        let decision = if skipped {
            DraftDecision::SkippedRegressive
        } else {
            let changed = self.preview.consume_preview_text(turn_id, item_id, note.text.as_str());
            self.draft_due = self.draft_due || changed;
            DraftDecision::Applied
        };
        self.stage = MirrorStage::RecordingDraft;
        MirrorStep::RecordDraft { note, decision, claim }
    }

    fn on_draft(&mut self, note: DraftNote) -> (res: MirrorStep)
        ensures
            (final(self)@, res@) == old(self)@.draft_came(note@),
    {
        self.preview.begin_turn(text::as_deref(&note.turn_id));
        if note.turn_id.is_none() {
            self.preview.set_ownership(None, true);
            return self.draft(note, DraftClaim::NotApplicable);
        }
        if self.preview.owns_turn(text::as_deref(&note.turn_id)) {
            return self.draft(note, DraftClaim::AlreadyOwned);
        }
        let step = MirrorStep::ClaimDraft {
            session_id: note.session_id.clone(),
            turn_id: text::clone_opt(&note.turn_id),
        };
        self.stage = MirrorStage::ClaimingDraft { note };
        step
    }

    fn on_draft_claimed(&mut self, note: DraftNote, claimed: bool) -> (res: MirrorStep)
        ensures
            (final(self)@, res@) == old(self)@.draft_claimed(note@, claimed),
    {
        self.preview.set_ownership(text::as_deref(&note.turn_id), claimed);
        let claim = if claimed {
            DraftClaim::Claimed
        } else {
            DraftClaim::Existing
        };
        if self.preview.owns_turn(text::as_deref(&note.turn_id)) {
            return self.draft(note, claim);
        }
        self.stage = MirrorStage::RecordingDraft;
        MirrorStep::RecordDraft { note, decision: DraftDecision::SkippedClaimDenied, claim }
    }

    /// The preview that the event at `at` brings.
    fn draft_at(&self, at: usize) -> (res: Option<DraftNote>)
        requires
            at < self.events.len(),
        ensures
            match res {
                Some(note) => self@.draft_in(self@.events[at as int]) == Some(note@),
                None => self@.draft_in(self@.events[at as int]) is None,
            },
    {
        let event = &self.events[at];
        let session_id = match json::text_at(&event.payload, "/session_id") {
            Some(session_id) => session_id,
            None => {
                return None;
            },
        };
        let shown = match json::text_at(&event.payload, "/text") {
            Some(shown) => shown,
            None => {
                return None;
            },
        };
        let expected = text::as_deref(&self.expected_session_id);
        if !session_is_expected(expected, session_id.as_str()) {
            return None;
        }
        Some(
            DraftNote {
                session_id,
                turn_id: turn_id_from_event_payload(&event.payload),
                item_id: item_id_from_event_payload(&event.payload),
                occurred_at: event.occurred_at.clone(),
                text: shown,
                previous_turn_id: text::clone_opt(&self.preview.active_turn_id),
                previous_item_id: text::clone_opt(&self.preview.active_item_id),
                previous_text: self.preview.latest_preview_text.clone(),
            },
        )
    }

    /// Forgets the prompt of a turn that is complete.
    fn settle_prompt(&mut self, at: usize)
        requires
            at < old(self).events.len(),
        ensures
            final(self)@ == (MirrorModel {
                pending: old(self)@.pending_after(old(self)@.events[at as int]),
                ..old(self)@
            }),
            final(self).events == old(self).events,
    {
        let event = &self.events[at];
        let is_end = text::same_text(event.event.as_str(), "turn_completed");
        match json::text_at(&event.payload, "/thread-id") {
            Some(session_id) => {
                let expected = text::as_deref(&self.expected_session_id);
                if is_end && session_is_expected(expected, session_id.as_str()) {
                    let key = local_prompt_tracking_key(
                        self.workspace_key.as_str(),
                        session_id.as_str(),
                    );
                    remove_key(&mut self.pending_prompts, key.as_str());
                }
            },
            None => {},
        }
    }

    /// Takes in the event at `at`, which is no preview; the step that follows, if any.
    fn on_entry(&mut self, at: usize) -> (res: Option<MirrorStep>)
        requires
            at < old(self).events.len(),
        ensures
            final(self).events == old(self).events,
            match res {
                Some(step) => old(self)@.entry_came(old(self)@.events[at as int]) == Some(
                    (final(self)@, step@),
                ),
                None => old(self)@.entry_came(old(self)@.events[at as int]) is None && final(self)@
                    == (MirrorModel {
                    pending: old(self)@.pending_after(old(self)@.events[at as int]),
                    ..old(self)@
                }),
            },
    {
        self.settle_prompt(at);
        let event = &self.events[at];
        proof {
            assert(self@.events[at as int] == event@);
        }
        let is_prompt = text::same_text(event.event.as_str(), "user_prompt_submitted");
        match local_mirror_entry_from_event(event, text::as_deref(&self.expected_session_id)) {
            None => None,
            Some(entry) => {
                let step = MirrorStep::Append { entry: entry.clone() };
                if is_prompt {
                    let key = local_prompt_tracking_key(
                        self.workspace_key.as_str(),
                        entry.session_id.as_str(),
                    );
                    add_key(&mut self.pending_prompts, key);
                    self.preview.reset_for_new_turn();
                    self.stage = MirrorStage::AppendingPrompt { entry };
                } else {
                    self.stage = MirrorStage::Appending { entry };
                }
                Some(step)
            },
        }
    }

    /// Takes in the event that comes next, where it leads to a step.
    fn take_event(&mut self) -> (res: Option<MirrorStep>)
        requires
            old(self).next < old(self).events.len(),
        ensures
            match res {
                Some(step) => (final(self)@, step@) == old(self)@.going_on(),
                None => {
                    &&& old(self)@.going_on() == final(self)@.going_on()
                    &&& old(self).next < final(self).next <= final(self).events.len()
                    &&& final(self).events == old(self).events
                },
            },
    {
        let ghost before = self@;
        let at = self.next;
        let is_preview = text::same_text(self.events[at].event.as_str(), "preview_text");
        proof {
            assert(before.events[at as int] == self.events@[at as int]@);
            lemma_run_end(before.events, before.events[at as int], at + 1);
            lemma_run_is_preview(before.events, at as int);
        }
        if is_preview {
            let end = preview_event_run_end(&self.events, at);
            self.next = end;
            match self.draft_at(end - 1) {
                Some(note) => {
                    let step = self.on_draft(note);
                    Some(step)
                },
                None => None,
            }
        } else {
            self.next = at + 1;
            self.on_entry(at)
        }
    }

    /// Takes in events until one leads to a step.
    fn go_on(&mut self) -> (res: MirrorStep)
        requires
            old(self).next <= old(self).events.len(),
        ensures
            (final(self)@, res@) == old(self)@.going_on(),
    {
        while self.next < self.events.len()
            invariant
                self.next <= self.events.len(),
                self@.going_on() == old(self)@.going_on(),
            decreases self.events.len() - self.next,
        {
            if let Some(step) = self.take_event() {
                return step;
            }
        }
        self.end(Ok(()))
    }
}

/// The event that stands for a run of previews is one itself.
proof fn lemma_run_is_preview(events: Seq<StatusEventModel>, at: int)
    requires
        0 <= at < events.len(),
    ensures
        at < run_end(events, at) <= events.len(),
        events[at].event == "preview_text"@ ==> events[run_end(events, at) - 1].event
            == "preview_text"@,
{
    lemma_run_end(events, events[at], at + 1);
    lemma_previews_before(events, events[at], at + 1);
}

/// What stands before the end of a run is a preview.
proof fn lemma_previews_before(events: Seq<StatusEventModel>, first: StatusEventModel, at: int)
    requires
        0 <= at <= events.len(),
    ensures
        same_previews(events, first, at) > at ==> events[same_previews(events, first, at) - 1].event
            == "preview_text"@,
    decreases events.len() - at,
{
    if at < events.len() && is_same_preview(events[at], first) {
        lemma_run_end(events, first, at + 1);
        lemma_previews_before(events, first, at + 1);
    }
}

impl MirrorRun {
    /// Begins to mirror the events from `offset` on.
    pub fn begin(
        events: Vec<WorkspaceStatusEventRecord>,
        offset: usize,
        workspace_key: String,
        expected_session_id: Option<String>,
        pending_prompts: Vec<String>,
        preview: MirrorPreviewState,
    ) -> (res: (Self, MirrorStep))
        requires
            offset <= events.len(),
        ensures
            (res.0@, res.1@) == (MirrorModel {
                events: event_models(events@),
                next: offset as int,
                workspace: workspace_key@,
                expected: text::opt_view(expected_session_id),
                pending: text::views(pending_prompts@).to_set(),
                preview: preview@,
                draft_due: false,
                stage: MirrorStageModel::Finished,
            }).going_on(),
            res.0.wf(),
    {
        let mut run = MirrorRun {
            events,
            next: offset,
            workspace_key,
            expected_session_id,
            pending_prompts,
            preview,
            draft_due: false,
            stage: MirrorStage::Finished,
        };
        proof {
            lemma_going_on(run@);
        }
        let step = run.go_on();
        (run, step)
    }

    /// Whether the next event is one of the events, or stands right behind them.
    pub open spec fn wf(self) -> bool {
        self@.next <= self@.events.len()
    }

    /// The next step of the mirroring.
    pub fn advance(&mut self, event: MirrorEvent) -> (res: MirrorStep)
        requires
            old(self).wf(),
        ensures
            (final(self)@, res@) == old(self)@.advanced(event),
            final(self).wf(),
    {
        proof {
            lemma_advanced(self@, event);
        }
        let mut stage = MirrorStage::Finished;
        std::mem::swap(&mut stage, &mut self.stage);
        self.draft_due = false;
        match (stage, event) {
            (MirrorStage::Finished, _) => self.end(Err(FlowError::OutOfTurn)),
            (MirrorStage::CommittingEcho, _) => self.go_on(),
            (MirrorStage::CommittingReply, _) => self.go_on(),
            (_, MirrorEvent::Failed(reason)) => self.end(Err(FlowError::Outside(reason))),
            (MirrorStage::AppendingPrompt { entry }, MirrorEvent::Inserted { inserted }) => {
                if inserted {
                    let step = MirrorStep::ClaimEcho { entry: entry.clone() };
                    self.stage = MirrorStage::ClaimingEcho { entry };
                    step
                } else {
                    self.go_on()
                }
            },
            (MirrorStage::ClaimingEcho { entry }, MirrorEvent::Claimed { claimed }) => {
                if claimed {
                    let step = MirrorStep::SendEcho { entry: entry.clone() };
                    self.stage = MirrorStage::SendingEcho { entry };
                    step
                } else {
                    self.go_on()
                }
            },
            (MirrorStage::SendingEcho { entry }, MirrorEvent::Done) => {
                self.stage = MirrorStage::CommittingEcho;
                MirrorStep::CommitEcho { entry }
            },
            (MirrorStage::ClaimingDraft { note }, MirrorEvent::Claimed { claimed }) => {
                self.on_draft_claimed(note, claimed)
            },
            (MirrorStage::RecordingDraft, MirrorEvent::Done) => self.go_on(),
            (MirrorStage::Appending { entry }, MirrorEvent::Inserted { inserted }) => {
                if entry.delivery == TranscriptMirrorDelivery::Final {
                    let step = MirrorStep::ClaimReply { entry: entry.clone() };
                    self.stage = MirrorStage::ClaimingReply { entry, inserted };
                    step
                } else {
                    self.go_on()
                }
            },
            (MirrorStage::ClaimingReply { entry, inserted }, MirrorEvent::Claimed { claimed }) => {
                self.on_reply_claimed(entry, inserted, claimed)
            },
            (
                MirrorStage::SendingReply { entry, inserted, completed },
                MirrorEvent::Done,
            ) => {
                self.stage = MirrorStage::CommittingReply;
                MirrorStep::CommitReply {
                    entry,
                    preview_completed: completed,
                    mirror_inserted: inserted,
                }
            },
            _ => self.end(Err(FlowError::OutOfTurn)),
        }
    }

    fn on_reply_claimed(
        &mut self,
        entry: TranscriptMirrorEntry,
        inserted: bool,
        claimed: bool,
    ) -> (res: MirrorStep)
        requires
            old(self).next <= old(self).events.len(),
        ensures
            (final(self)@, res@) == old(self)@.reply_claimed(entry@, inserted, claimed),
    {
        self.preview.begin_turn(text::as_deref(&entry.turn_id));
        let completed = if self.preview.owns_turn(text::as_deref(&entry.turn_id)) {
            self.preview.complete(entry.text.as_str())
        } else {
            false
        };
        self.draft_due = self.draft_due || completed;
        if claimed {
            let step = MirrorStep::SendReply { entry: entry.clone() };
            self.stage = MirrorStage::SendingReply { entry, inserted, completed };
            step
        } else {
            self.go_on()
        }
    }
}

/// How many steps a stage can still take before the next event is taken.
pub open spec fn mirror_rank(stage: MirrorStageModel) -> int {
    match stage {
        MirrorStageModel::AppendingPrompt { .. } => 4,
        MirrorStageModel::ClaimingEcho { .. } => 3,
        MirrorStageModel::SendingEcho { .. } => 2,
        MirrorStageModel::CommittingEcho => 1,
        MirrorStageModel::ClaimingDraft { .. } => 2,
        MirrorStageModel::RecordingDraft => 1,
        MirrorStageModel::Appending { .. } => 4,
        MirrorStageModel::ClaimingReply { .. } => 3,
        MirrorStageModel::SendingReply { .. } => 2,
        MirrorStageModel::CommittingReply => 1,
        MirrorStageModel::Finished => 0,
    }
}

/// How many steps the mirroring can still take.
pub open spec fn mirror_steps_left(run: MirrorModel) -> int {
    if run.stage is Finished {
        0
    } else {
        5 * (run.events.len() - run.next) + mirror_rank(run.stage)
    }
}

/// What holds of a step of the mirroring: it is about the expected session, and a preview is shown
/// only of a turn that is owned.
pub open spec fn is_proper_step(run: MirrorModel, step: MirrorStepModel) -> bool {
    match step {
        MirrorStepModel::Append { entry } => is_expected(run.expected, entry.session_id),
        MirrorStepModel::ClaimDraft { session_id, turn_id } => is_expected(
            run.expected,
            session_id,
        ),
        MirrorStepModel::RecordDraft { note, decision, claim } => {
            &&& decision == DraftDecision::Applied ==> run.preview.owns(note.turn_id)
        },
        _ => true,
    }
}

/// What holds of the first step for the events that come next.
proof fn lemma_going_on(run: MirrorModel)
    requires
        0 <= run.next <= run.events.len(),
    ensures
        ({
            let (after, step) = run.going_on();
            &&& step is Finish <==> after.stage is Finished
            &&& after.events == run.events
            &&& after.expected == run.expected
            &&& run.next <= after.next <= run.events.len()
            &&& after.stage !is Finished ==> run.next < after.next && mirror_rank(after.stage) <= 4
            &&& is_proper_step(after, step)
            &&& !(step is SendEcho || step is SendReply)
        }),
    decreases run.events.len() - run.next,
{
    if run.next < run.events.len() {
        lemma_run_is_preview(run.events, run.next);
        let (event, after) = event_taken(run.events, run.next);
        let next = MirrorModel { next: after, ..run };
        if event.event == "preview_text"@ {
            if next.draft_in(event) is None {
                lemma_going_on(next);
            }
        } else if next.entry_came(event) is None {
            lemma_going_on(MirrorModel { pending: next.pending_after(event), ..next });
        }
    }
}

/// The events that are taken stay within the events.
proof fn lemma_advanced(run: MirrorModel, event: MirrorEvent)
    requires
        0 <= run.next <= run.events.len(),
    ensures
        ({
            let (after, step) = run.advanced(event);
            &&& after.events == run.events
            &&& run.next <= after.next <= run.events.len()
        }),
{
    law_mirroring_ends(run, event);
}

/// Whatever comes of its steps, the mirroring ends, and no event is taken twice: each step brings
/// it nearer to the end, and what was taken stays taken.
pub proof fn law_mirroring_ends(run: MirrorModel, event: MirrorEvent)
    requires
        0 <= run.next <= run.events.len(),
    ensures
        ({
            let (after, step) = run.advanced(event);
            &&& step is Finish <==> after.stage is Finished
            &&& after.events == run.events
            &&& run.next <= after.next <= run.events.len()
            &&& run.stage !is Finished ==> 0 <= mirror_steps_left(after) < mirror_steps_left(run)
        }),
{
    let clear = MirrorModel { draft_due: false, stage: MirrorStageModel::Finished, ..run };
    lemma_going_on(clear);
    match (run.stage, event) {
        (
            MirrorStageModel::ClaimingReply { entry, inserted },
            MirrorEvent::Claimed { claimed },
        ) => {
            let begun = MirrorModel { preview: clear.preview.begun(entry.turn_id), ..clear };
            let shown = if begun.preview.owns(entry.turn_id) {
                begun.showing(begun.preview.completed(entry.text))
            } else {
                begun
            };
            lemma_going_on(shown);
        },
        _ => {},
    }
}

/// Only what belongs to the session of the local client is put into the transcript, and a preview
/// is shown only of a turn that is owned.
pub proof fn law_only_the_claimed_session_is_mirrored(run: MirrorModel, event: MirrorEvent)
    requires
        0 <= run.next <= run.events.len(),
    ensures
        ({
            let (after, step) = run.advanced(event);
            after.expected == run.expected && is_proper_step(after, step)
        }),
{
    let clear = MirrorModel { draft_due: false, stage: MirrorStageModel::Finished, ..run };
    lemma_going_on(clear);
    match (run.stage, event) {
        (
            MirrorStageModel::ClaimingReply { entry, inserted },
            MirrorEvent::Claimed { claimed },
        ) => {
            let begun = MirrorModel { preview: clear.preview.begun(entry.turn_id), ..clear };
            let shown = if begun.preview.owns(entry.turn_id) {
                begun.showing(begun.preview.completed(entry.text))
            } else {
                begun
            };
            lemma_going_on(shown);
        },
        _ => {},
    }
}

/// Nothing is sent to a thread unless its delivery was claimed first.
pub proof fn law_mirrored_messages_are_claimed(run: MirrorModel, event: MirrorEvent)
    requires
        0 <= run.next <= run.events.len(),
    ensures
        run.advanced(event).1 is SendEcho ==> run.stage is ClaimingEcho && event == (
        MirrorEvent::Claimed { claimed: true }),
        run.advanced(event).1 is SendReply ==> run.stage is ClaimingReply && event == (
        MirrorEvent::Claimed { claimed: true }),
{
    let clear = MirrorModel { draft_due: false, stage: MirrorStageModel::Finished, ..run };
    lemma_going_on(clear);
    match (run.stage, event) {
        (
            MirrorStageModel::ClaimingReply { entry, inserted },
            MirrorEvent::Claimed { claimed },
        ) => {
            let begun = MirrorModel { preview: clear.preview.begun(entry.turn_id), ..clear };
            let shown = if begun.preview.owns(entry.turn_id) {
                begun.showing(begun.preview.completed(entry.text))
            } else {
                begun
            };
            lemma_going_on(shown);
        },
        _ => {},
    }
}

/// A thread, as far as the mirroring looks at it.
#[derive(Debug)]
pub struct MirrorThread {
    pub thread_key: String,
    pub archived: bool,
    pub workspace_cwd: Option<String>,
    pub message_thread_id: Option<i32>,
}

/// Whether a thread is bound to a workspace, and not archived.
pub open spec fn is_of_workspace(thread: MirrorThread, workspace: Seq<char>) -> bool {
    !thread.archived && text::opt_view(thread.workspace_cwd) == Some(workspace)
}

/// The first thread of a workspace, from `from` on, that has a key.
pub open spec fn owner_from(
    threads: Seq<MirrorThread>,
    workspace: Seq<char>,
    thread_key: Seq<char>,
    from: int,
) -> Option<int>
    decreases threads.len() - from,
{
    if from < 0 || from >= threads.len() {
        None
    } else if is_of_workspace(threads[from], workspace) && threads[from].thread_key@ == thread_key {
        Some(from)
    } else {
        owner_from(threads, workspace, thread_key, from + 1)
    }
}

/// The workspaces whose events are looked at: those that a thread is bound to that is not archived.
pub fn mirror_workspaces(threads: &Vec<MirrorThread>) -> (res: Vec<String>)
    ensures
        text::is_increasing(text::views(res@)),
        forall|workspace: Seq<char>| #[trigger]
            text::views(res@).contains(workspace) <==> is_workspace_of(threads@, workspace),
{
    let mut found: Vec<String> = Vec::new();
    let mut i: usize = 0;
    while i < threads.len()
        invariant
            i <= threads.len(),
            text::is_increasing(text::views(found@)),
            forall|workspace: Seq<char>| #[trigger]
                text::views(found@).contains(workspace) <==> is_workspace_of(
                    threads@.take(i as int),
                    workspace,
                ),
        decreases threads.len() - i,
    {
        let ghost before = threads@.take(i as int);
        proof {
            assert(threads@.take(i + 1) =~= before.push(threads@[i as int]));
            lemma_workspaces_pushed(before, threads@[i as int]);
        }
        if !threads[i].archived {
            match &threads[i].workspace_cwd {
                Some(workspace) => {
                    text::add_distinct(&mut found, workspace.clone());
                },
                None => {},
            }
        }
        i += 1;
    }
    proof {
        assert(threads@.take(i as int) =~= threads@);
    }
    found
}

/// Whether some thread is bound to a workspace that is not archived.
pub open spec fn is_workspace_of(threads: Seq<MirrorThread>, workspace: Seq<char>) -> bool {
    exists|i: int| 0 <= i < threads.len() && #[trigger] is_of_workspace(threads[i], workspace)
}

/// What one more thread adds to the workspaces.
proof fn lemma_workspaces_pushed(threads: Seq<MirrorThread>, thread: MirrorThread)
    ensures
        forall|workspace: Seq<char>| #[trigger]
            is_workspace_of(threads.push(thread), workspace) <==> (is_workspace_of(
                threads,
                workspace,
            ) || is_of_workspace(thread, workspace)),
{
    let more = threads.push(thread);
    assert forall|workspace: Seq<char>|
        is_workspace_of(threads, workspace) || is_of_workspace(
            thread,
            workspace,
        ) implies #[trigger] is_workspace_of(more, workspace) by {
        if is_of_workspace(thread, workspace) {
            assert(is_of_workspace(more[threads.len() as int], workspace));
        } else {
            let i = choose|i: int|
                0 <= i < threads.len() && #[trigger] is_of_workspace(threads[i], workspace);
            assert(is_of_workspace(more[i], workspace));
        }
    }
    assert forall|workspace: Seq<char>| #[trigger]
        is_workspace_of(more, workspace) implies is_workspace_of(threads, workspace)
        || is_of_workspace(thread, workspace) by {
        let i = choose|i: int|
            0 <= i < more.len() && #[trigger] is_of_workspace(more[i], workspace);
        if i < threads.len() {
            assert(is_of_workspace(threads[i], workspace));
        }
    }
}

/// What is done about the events of a workspace.
#[derive(Debug, Clone, Copy, PartialEq, Eq, Structural)]
pub enum WorkspacePlan {
    /// The events are passed over, and the prompts of the workspace forgotten.
    Skip,
    /// Nothing is done for now.
    Leave,
    /// The events are mirrored into the topic of a thread.
    Mirror { owner: usize, message_thread_id: i32 },
}

/// What is done about the events of a workspace: they are mirrored for the thread that a local
/// client claims it for, unless clients are at work on it otherwise than claimed.
pub open spec fn planned(
    claim: Option<LocalTuiSessionClaim>,
    live: Seq<Seq<char>>,
    threads: Seq<MirrorThread>,
    workspace: Seq<char>,
) -> WorkspacePlan {
    match claim {
        None => WorkspacePlan::Skip,
        Some(found) => if is_local_conflict(live, claim) {
            WorkspacePlan::Skip
        } else {
            match owner_from(threads, workspace, found.thread_key@, 0) {
                None => WorkspacePlan::Skip,
                Some(owner) => match threads[owner].message_thread_id {
                    None => WorkspacePlan::Leave,
                    Some(message_thread_id) => WorkspacePlan::Mirror {
                        owner: owner as usize,
                        message_thread_id,
                    },
                },
            }
        },
    }
}

fn find_owner(threads: &Vec<MirrorThread>, workspace: &str, thread_key: &str) -> (res: Option<usize>)
    ensures
        match res {
            Some(owner) => owner_from(threads@, workspace@, thread_key@, 0) == Some(owner as int)
                && owner < threads.len(),
            None => owner_from(threads@, workspace@, thread_key@, 0) is None,
        },
{
    let mut i: usize = 0;
    while i < threads.len()
        invariant
            i <= threads.len(),
            owner_from(threads@, workspace@, thread_key@, 0) == owner_from(
                threads@,
                workspace@,
                thread_key@,
                i as int,
            ),
        decreases threads.len() - i,
    {
        let thread = &threads[i];
        if !thread.archived && text::same_opt_text(
            text::as_deref(&thread.workspace_cwd),
            Some(workspace),
        ) && text::same_text(thread.thread_key.as_str(), thread_key) {
            return Some(i);
        }
        i += 1;
    }
    None
}

/// What is done about the events of a workspace.
pub fn plan_workspace_mirror(
    claim: Option<&LocalTuiSessionClaim>,
    aggregate: &WorkspaceAggregateStatus,
    threads: &Vec<MirrorThread>,
    workspace_key: &str,
) -> (res: WorkspacePlan)
    ensures
        res == planned(
            match claim {
                Some(claim) => Some(*claim),
                None => None,
            },
            text::views(aggregate.live_tui_session_ids@),
            threads@,
            workspace_key@,
        ),
{
    match claim {
        None => WorkspacePlan::Skip,
        Some(found) => {
            if workspace_local_conflict(Some(aggregate), claim) {
                return WorkspacePlan::Skip;
            }
            match find_owner(threads, workspace_key, found.thread_key.as_str()) {
                None => WorkspacePlan::Skip,
                Some(owner) => match threads[owner].message_thread_id {
                    None => WorkspacePlan::Leave,
                    Some(message_thread_id) => WorkspacePlan::Mirror { owner, message_thread_id },
                },
            }
        },
    }
}

/// Where the mirroring of events begins: where it ended before, or else where the claim begins.
pub fn mirror_offset(
    known_offset: Option<usize>,
    events: &Vec<WorkspaceStatusEventRecord>,
    local_tui_claim: &LocalTuiSessionClaim,
) -> (res: usize)
    ensures
        match known_offset {
            Some(offset) => res == offset,
            None => {
                &&& res <= events@.len()
                &&& forall|i: int|
                    0 <= i < res ==> text::text_before(
                        #[trigger] event_models(events@)[i].occurred_at,
                        local_tui_claim.started_at@,
                    )
                &&& res < events@.len() ==> !text::text_before(
                    event_models(events@)[res as int].occurred_at,
                    local_tui_claim.started_at@,
                )
            },
        },
{
    match known_offset {
        Some(offset) => offset,
        None => initial_workspace_event_offset(events, local_tui_claim),
    }
}

/// Whether the preview of a thread beats: it does while its turn is owned.
pub fn preview_beats(preview: &MirrorPreviewState) -> (res: bool)
    ensures
        res == preview@.owns_active_turn,
{
    preview.owns_active_turn
}

/// Events are mirrored only for a thread that is bound to their workspace, that is not archived,
/// and that a local client claims the workspace for.
pub proof fn law_events_go_to_the_claiming_thread(
    claim: Option<LocalTuiSessionClaim>,
    live: Seq<Seq<char>>,
    threads: Seq<MirrorThread>,
    workspace: Seq<char>,
)
    requires
        threads.len() <= usize::MAX,
    ensures
        planned(claim, live, threads, workspace) matches WorkspacePlan::Mirror {
            owner,
            message_thread_id,
        } ==> claim is Some && owner < threads.len() && is_of_workspace(
            threads[owner as int],
            workspace,
        ) && threads[owner as int].thread_key@ == claim->0.thread_key@
            && threads[owner as int].message_thread_id == Some(message_thread_id)
            && !is_local_conflict(live, claim),
{
    if claim is Some {
        lemma_owner(threads, workspace, claim->0.thread_key@, 0);
    }
}

/// The owner of a workspace is one of its threads.
proof fn lemma_owner(
    threads: Seq<MirrorThread>,
    workspace: Seq<char>,
    thread_key: Seq<char>,
    from: int,
)
    requires
        0 <= from,
    ensures
        match owner_from(threads, workspace, thread_key, from) {
            Some(owner) => 0 <= owner < threads.len() && is_of_workspace(threads[owner], workspace)
                && threads[owner].thread_key@ == thread_key,
            None => true,
        },
    decreases threads.len() - from,
{
    if from < threads.len() && !(is_of_workspace(threads[from], workspace)
        && threads[from].thread_key@ == thread_key) {
        lemma_owner(threads, workspace, thread_key, from + 1);
    }
}

/// Where no local client is at work there is no conflict. One client alone is none if the workspace
/// is claimed, for no particular session or for its own; without a claim, in another session, or
/// next to a second client it is.
pub proof fn law_conflicts_are_clients_beside_the_claim(
    live: Seq<Seq<char>>,
    one: Seq<char>,
    claim: LocalTuiSessionClaim,
)
    ensures
        !is_local_conflict(Seq::empty(), None),
        !is_local_conflict(Seq::empty(), Some(claim)),
        is_local_conflict(seq![one], None),
        live.len() > 1 ==> is_local_conflict(live, None) && is_local_conflict(live, Some(claim)),
        claim.session_id is None ==> !is_local_conflict(seq![one], Some(claim)),
        claim.session_id matches Some(claimed) ==> (is_local_conflict(seq![one], Some(claim))
            <==> claimed@ != one),
{
    if let Some(claimed) = claim.session_id {
        assert(seq![one].contains(claimed@) <==> claimed@ == one) by {
            assert(seq![one][0] == one);
        }
    }
}

/// What comes through one of the two ingress clients comes from a terminal, and everything else from
/// elsewhere on the machine.
pub proof fn law_ingress_clients_are_terminals(payload: Map<Seq<char>, NodeModel>)
    ensures
        origin_of(payload) == TranscriptMirrorOrigin::Tui <==> payload.contains_key("/client"@) && (
        payload["/client"@] == NodeModel::Text("threadbridge-hcodex-ingress"@)
            || payload["/client"@] == NodeModel::Text("threadbridge-tui-proxy"@)),
        origin_of(payload) == TranscriptMirrorOrigin::Tui || origin_of(payload)
            == TranscriptMirrorOrigin::Local,
{
}

/// The turn and the item of an event are those that it names; of the two spellings of a turn the one
/// with a hyphen counts first.
pub proof fn law_events_name_turn_and_item(
    payload: Map<Seq<char>, NodeModel>,
    one: Seq<char>,
    other: Seq<char>,
)
    ensures
        payload.contains_key("/turn-id"@) && payload["/turn-id"@] == NodeModel::Text(one)
            ==> turn_of(payload) == Some(one),
        !payload.contains_key("/turn-id"@) && payload.contains_key("/turn_id"@)
            && payload["/turn_id"@] == NodeModel::Text(other) ==> turn_of(payload) == Some(other),
        !payload.contains_key("/turn-id"@) && !payload.contains_key("/turn_id"@) ==> turn_of(payload)
            is None,
        payload.contains_key("/item_id"@) && payload["/item_id"@] == NodeModel::Text(one)
            && !text::is_blank(one) ==> item_of(payload) == Some(text::trimmed(one)),
        !payload.contains_key("/item_id"@) ==> item_of(payload) is None,
{
}

/// Two prompts of a workspace are remembered under one key only if they are of one session.
pub proof fn law_prompts_are_tracked_by_session(
    workspace: Seq<char>,
    one: Seq<char>,
    other: Seq<char>,
)
    ensures
        tracking_key(workspace, one) == tracking_key(workspace, other) <==> one == other,
        workspace.is_prefix_of(tracking_key(workspace, one)),
{
    let key = tracking_key(workspace, one);
    let after = tracking_key(workspace, other);
    let start = workspace.len() + "::"@.len();
    assert(key.skip(start as int) =~= one);
    assert(after.skip(start as int) =~= other);
    assert(workspace =~= key.subrange(0, workspace.len() as int));
}

/// The prompts of a workspace are forgotten and no others, and of what is kept for threads only what
/// is still in use stays; both keep the order.
pub proof fn law_keys_go_with_what_they_are_for(
    keys: Seq<Seq<char>>,
    key: Seq<char>,
    workspace: Seq<char>,
    active: Seq<Seq<char>>,
)
    ensures
        keys_elsewhere(keys.push(key), workspace) == if workspace.is_prefix_of(key) {
            keys_elsewhere(keys, workspace)
        } else {
            keys_elsewhere(keys, workspace).push(key)
        },
        keys_in_use(keys.push(key), active) == if active.contains(key) {
            keys_in_use(keys, active).push(key)
        } else {
            keys_in_use(keys, active)
        },
        keys_elsewhere(Seq::empty(), workspace).len() == 0,
        keys_in_use(Seq::empty(), active).len() == 0,
{
    reveal(Seq::filter);
    assert(keys.push(key).drop_last() =~= keys);
}

/// A run of previews holds the previews of one session and one turn that follow upon each other, and
/// ends where something else follows; the newest of them stands for the run.
pub proof fn law_runs_are_of_one_turn(events: Seq<StatusEventModel>, start: int, i: int)
    requires
        0 <= start < events.len(),
    ensures
        ({
            let end = run_end(events, start);
            &&& start < end <= events.len()
            &&& start < i < end ==> events[i].event == "preview_text"@ && json::text_in(
                events[i].payload,
                "/session_id"@,
            ) == json::text_in(events[start].payload, "/session_id"@) && turn_of(events[i].payload)
                == turn_of(events[start].payload)
            &&& events[start].event == "preview_text"@ && end < events.len() && json::text_in(
                events[start].payload,
                "/session_id"@,
            ) is Some ==> events[end].event != "preview_text"@ || json::text_in(
                events[end].payload,
                "/session_id"@,
            ) != json::text_in(events[start].payload, "/session_id"@) || turn_of(
                events[end].payload,
            ) != turn_of(events[start].payload)
            &&& events[start].event == "preview_text"@ ==> event_taken(events, start) == (
                events[end - 1],
                end,
            )
            &&& events[start].event != "preview_text"@ ==> event_taken(events, start) == (
                events[start],
                start + 1,
            )
        }),
{
    lemma_run_end(events, events[start], start + 1);
    lemma_run_is_whole(events, events[start], start + 1, i);
}

/// What stands in a run is a preview of its turn, and what stands behind it is not.
proof fn lemma_run_is_whole(
    events: Seq<StatusEventModel>,
    first: StatusEventModel,
    at: int,
    i: int,
)
    requires
        0 <= at <= events.len(),
    ensures
        at <= i < same_previews(events, first, at) ==> is_same_preview(events[i], first),
        same_previews(events, first, at) < events.len() ==> !is_same_preview(
            events[same_previews(events, first, at)],
            first,
        ),
    decreases events.len() - at,
{
    if at < events.len() && is_same_preview(events[at], first) {
        lemma_run_is_whole(events, first, at + 1, i);
    }
}

/// A prompt of a local client goes into the transcript, is remembered until its turn is complete, and
/// clears what was shown of the turn before. If it is new there it is claimed, shown, and put on
/// record, always as the same prompt.
pub proof fn law_local_prompts_are_echoed(
    run: MirrorModel,
    entry: EntryModel,
)
    requires
        0 <= run.next < run.events.len(),
        run.events[run.next].event == "user_prompt_submitted"@,
        entry_of(run.events[run.next], run.expected) == Some(entry),
    ensures
        ({
            let (taken, append) = run.going_on();
            let (claiming, claim) = taken.advanced(MirrorEvent::Inserted { inserted: true });
            let (sending, send) = claiming.advanced(MirrorEvent::Claimed { claimed: true });
            &&& append == (MirrorStepModel::Append { entry })
            &&& taken.next == run.next + 1
            &&& taken.pending.contains(run.workspace + "::"@ + entry.session_id)
            &&& taken.preview.active_turn_id is None
            &&& taken.preview.latest_preview_text.len() == 0
            &&& claim == (MirrorStepModel::ClaimEcho { entry })
            &&& send == (MirrorStepModel::SendEcho { entry })
            &&& sending.advanced(MirrorEvent::Done).1 == (MirrorStepModel::CommitEcho { entry })
            &&& !(taken.advanced(MirrorEvent::Inserted { inserted: false }).1 is ClaimEcho)
            &&& !(claiming.advanced(MirrorEvent::Claimed { claimed: false }).1 is SendEcho)
        }),
{
    reveal_strlit("user_prompt_submitted");
    reveal_strlit("preview_text");
    assert("user_prompt_submitted"@.len() == 21 && "preview_text"@.len() == 12);
    let (taken, append) = run.going_on();
    lemma_going_on(MirrorModel { draft_due: false, stage: MirrorStageModel::Finished, ..taken });
    lemma_no_claims(MirrorModel { draft_due: false, stage: MirrorStageModel::Finished, ..taken });
}

/// The first step for an event is never the claim of an echo.
proof fn lemma_no_claims(run: MirrorModel)
    requires
        0 <= run.next <= run.events.len(),
    ensures
        run.going_on().1 !is ClaimEcho,
        run.going_on().1 !is ClaimReply,
    decreases run.events.len() - run.next,
{
    if run.next < run.events.len() {
        lemma_run_is_preview(run.events, run.next);
        let (event, after) = event_taken(run.events, run.next);
        let next = MirrorModel { next: after, ..run };
        if event.event == "preview_text"@ {
            if next.draft_in(event) is None {
                lemma_no_claims(next);
            }
        } else if next.entry_came(event) is None {
            lemma_no_claims(MirrorModel { pending: next.pending_after(event), ..next });
        }
    }
}

/// The end of a turn takes the prompt of its session along, and only that; what happens in another
/// session than the expected one, or is no end of a turn, leaves all prompts remembered.
pub proof fn law_complete_turns_settle_their_prompt(
    run: MirrorModel,
    event: StatusEventModel,
    session_id: Seq<char>,
    key: Seq<char>,
)
    requires
        event.payload.contains_key("/thread-id"@),
        event.payload["/thread-id"@] == NodeModel::Text(session_id),
    ensures
        event.event == "turn_completed"@ && (run.expected is None || run.expected == Some(
            session_id,
        )) ==> (run.pending_after(event).contains(key) <==> run.pending.contains(key) && key
            != run.workspace + "::"@ + session_id),
        event.event != "turn_completed"@ ==> run.pending_after(event) == run.pending,
        run.expected is Some && run.expected != Some(session_id) ==> run.pending_after(event)
            == run.pending,
{
}

/// A reply goes into the transcript and is claimed, whether it was there before or not; a step of a
/// turn is only put there. A claimed reply is sent and put on record as what it was.
pub proof fn law_local_replies_are_sent(
    run: MirrorModel,
    entry: EntryModel,
    inserted: bool,
)
    requires
        run.stage == (MirrorStageModel::Appending { entry }),
        0 <= run.next <= run.events.len(),
    ensures
        ({
            let (claiming, claim) = run.advanced(MirrorEvent::Inserted { inserted });
            let (sending, send) = claiming.advanced(MirrorEvent::Claimed { claimed: true });
            &&& entry.delivery == TranscriptMirrorDelivery::Process ==> claim !is ClaimReply
            &&& entry.delivery == TranscriptMirrorDelivery::Final ==> claim == (
            MirrorStepModel::ClaimReply { entry }) && send == (MirrorStepModel::SendReply { entry })
                && (sending.advanced(MirrorEvent::Done).1 matches MirrorStepModel::CommitReply {
                entry: sent,
                preview_completed,
                mirror_inserted,
            } && sent == entry && mirror_inserted == inserted && (preview_completed
                ==> run.preview.owns_active_turn && run.preview.active_turn_id == entry.turn_id))
        }),
{
    lemma_no_claims(MirrorModel { draft_due: false, stage: MirrorStageModel::Finished, ..run });
}

/// A preview of a turn that is not owned yet is claimed first, unless it names no turn. If the claim
/// is denied nothing of it is shown; else it is, unless it is an older state of what is shown.
pub proof fn law_drafts_are_shown_of_owned_turns(run: MirrorModel, note: DraftModel, claimed: bool)
    requires
        run.stage == (MirrorStageModel::ClaimingDraft { note }),
        run.preview.active_turn_id == note.turn_id,
    ensures
        ({
            let (after, step) = run.advanced(MirrorEvent::Claimed { claimed });
            let older = run.preview.is_regressive(note.turn_id, note.item_id, note.text);
            &&& step == (MirrorStepModel::RecordDraft {
                note,
                decision: if !claimed {
                    DraftDecision::SkippedClaimDenied
                } else if older {
                    DraftDecision::SkippedRegressive
                } else {
                    DraftDecision::Applied
                },
                claim: if claimed {
                    DraftClaim::Claimed
                } else {
                    DraftClaim::Existing
                },
            })
            &&& after.preview.owns_active_turn == claimed
            &&& !claimed || older ==> after.preview.latest_preview_text
                == run.preview.latest_preview_text && after.preview.preview == run.preview.preview
            &&& claimed && !older && !text::is_blank(note.text)
                ==> after.preview.latest_preview_text == text::trimmed(note.text)
                && after.preview.active_item_id == note.item_id
        }),
{
}

/// A preview without a turn is shown without a claim, and one of a turn that is owned already is not
/// claimed again; every other is claimed for its session and its turn.
pub proof fn law_drafts_claim_their_turn(run: MirrorModel, note: DraftModel)
    ensures
        ({
            let (after, step) = run.draft_came(note);
            &&& after.preview.active_turn_id == note.turn_id
            &&& note.turn_id is None ==> (step matches MirrorStepModel::RecordDraft { claim, .. }
                && claim == DraftClaim::NotApplicable)
            &&& note.turn_id is Some && run.preview.active_turn_id == note.turn_id
                && run.preview.owns_active_turn ==> (step matches MirrorStepModel::RecordDraft {
                claim,
                ..
            } && claim == DraftClaim::AlreadyOwned)
            &&& note.turn_id is Some && !(run.preview.active_turn_id == note.turn_id
                && run.preview.owns_active_turn) ==> step == (MirrorStepModel::ClaimDraft {
                session_id: note.session_id,
                turn_id: note.turn_id,
            })
        }),
{
}

/// What a preview of the expected session says is taken from its event, with what was shown before.
pub proof fn law_drafts_are_read_from_their_event(
    run: MirrorModel,
    event: StatusEventModel,
    session_id: Seq<char>,
    shown: Seq<char>,
)
    requires
        event.payload.contains_key("/session_id"@),
        event.payload["/session_id"@] == NodeModel::Text(session_id),
        event.payload.contains_key("/text"@),
        event.payload["/text"@] == NodeModel::Text(shown),
    ensures
        run.draft_in(event) is Some <==> run.expected is None || run.expected == Some(session_id),
        run.draft_in(event) matches Some(note) ==> note.session_id == session_id && note.text
            == shown && note.occurred_at == event.occurred_at && note.turn_id == turn_of(
            event.payload,
        ) && note.item_id == item_of(event.payload) && note.previous_turn_id
            == run.preview.active_turn_id && note.previous_item_id == run.preview.active_item_id
            && note.previous_text == run.preview.latest_preview_text,
{
}

/// A preview that goes on, or begins another item or turn, is shown; only what is shown already in
/// full is passed over.
pub proof fn law_newer_previews_are_shown(
    preview: MirrorPreviewModel,
    turn_id: Option<Seq<char>>,
    item_id: Option<Seq<char>>,
    shown: Seq<char>,
)
    requires
        !text::is_blank(shown),
    ensures
        ({
            let after = preview.consumed(turn_id, item_id, shown);
            &&& preview.active_turn_id != turn_id || preview.active_item_id != item_id
                || !text::trimmed(shown).is_prefix_of(preview.latest_preview_text)
                ==> after.latest_preview_text == text::trimmed(shown) && after.active_item_id
                == item_id
            &&& after.active_turn_id == preview.active_turn_id
            &&& after.owns_active_turn == preview.owns_active_turn
        }),
        preview.consumed(turn_id, item_id, Seq::empty()) == preview,
{
    assert(text::is_blank(Seq::<char>::empty()));
}

/// Only the active turn can come to be owned, and it is owned as long as it is the active one.
pub proof fn law_the_active_turn_is_owned(
    preview: MirrorPreviewModel,
    turn_id: Option<Seq<char>>,
    other: Option<Seq<char>>,
    owns: bool,
)
    ensures
        preview.active_turn_id == turn_id ==> (preview.with_ownership(turn_id, owns).owns(turn_id)
            <==> owns),
        preview.active_turn_id != turn_id ==> preview.with_ownership(turn_id, owns) == preview,
        preview.active_turn_id != turn_id ==> !preview.owns(turn_id),
        other != turn_id ==> !preview.begun(turn_id).begun(other).owns(turn_id),
        preview.active_turn_id != turn_id ==> preview.begun(turn_id).latest_preview_text.len() == 0
            && preview.begun(turn_id).active_item_id is None,
{
}

/// The events of a workspace are mirrored into the topic of the thread that it is claimed for, if
/// that thread is bound to it and not archived; without a claim, in a conflict, or without such a
/// thread they are passed over, and without a topic they wait.
pub proof fn law_claimed_workspaces_are_mirrored(
    claim: LocalTuiSessionClaim,
    live: Seq<Seq<char>>,
    threads: Seq<MirrorThread>,
    workspace: Seq<char>,
    i: int,
)
    requires
        0 <= i < threads.len() <= usize::MAX,
        forall|j: int| 0 <= j < i ==> (#[trigger] threads[j]).thread_key@ != claim.thread_key@,
        threads[i].thread_key@ == claim.thread_key@,
        !threads[i].archived,
        threads[i].workspace_cwd is Some && threads[i].workspace_cwd->0@ == workspace,
    ensures
        planned(None, live, threads, workspace) == WorkspacePlan::Skip,
        is_local_conflict(live, Some(claim)) ==> planned(Some(claim), live, threads, workspace)
            == WorkspacePlan::Skip,
        !is_local_conflict(live, Some(claim)) ==> planned(Some(claim), live, threads, workspace)
            == match threads[i].message_thread_id {
            Some(message_thread_id) => WorkspacePlan::Mirror { owner: i as usize, message_thread_id },
            None => WorkspacePlan::Leave,
        },
        planned(Some(claim), live, Seq::empty(), workspace) == WorkspacePlan::Skip,
{
    lemma_owner_found(threads, workspace, claim.thread_key@, 0, i);
}

/// The first thread with a key is found, if it is of the workspace.
proof fn lemma_owner_found(
    threads: Seq<MirrorThread>,
    workspace: Seq<char>,
    thread_key: Seq<char>,
    from: int,
    i: int,
)
    requires
        0 <= from <= i < threads.len(),
        forall|j: int| from <= j < i ==> (#[trigger] threads[j]).thread_key@ != thread_key,
        threads[i].thread_key@ == thread_key,
        is_of_workspace(threads[i], workspace),
    ensures
        owner_from(threads, workspace, thread_key, from) == Some(i),
    decreases i - from,
{
    if from < i {
        assert(threads[from].thread_key@ != thread_key);
        lemma_owner_found(threads, workspace, thread_key, from + 1, i);
    }
}

/// A thread is of the workspace that it is bound to, as long as it is not archived.
pub proof fn law_archived_threads_have_no_workspace(thread: MirrorThread, workspace: Seq<char>)
    ensures
        is_of_workspace(thread, workspace) <==> !thread.archived && (
        thread.workspace_cwd matches Some(cwd) && cwd@ == workspace),
{
}

/// Nothing is taken that was not asked for: a mirroring that has ended stays so, and a step that fails
/// ends it for the reason of the failure, but for a record of what was sent already.
pub proof fn law_mirroring_ends_with_what_went_wrong(
    run: MirrorModel,
    event: MirrorEvent,
    entry: EntryModel,
    reason: String,
)
    ensures
        run.stage is Finished ==> run.advanced(event).1 == (MirrorStepModel::Finish {
            outcome: Err(FlowError::OutOfTurn),
        }),
        run.stage is Appending || run.stage is AppendingPrompt || run.stage is ClaimingEcho
            || run.stage is SendingEcho || run.stage is ClaimingReply || run.stage is SendingReply
            || run.stage is ClaimingDraft || run.stage is RecordingDraft ==> run.advanced(
            MirrorEvent::Failed(reason),
        ).1 == (MirrorStepModel::Finish { outcome: Err(FlowError::Outside(reason)) }),
        run.stage is SendingReply && event !is Done && event !is Failed ==> run.advanced(event).1
            == (MirrorStepModel::Finish { outcome: Err(FlowError::OutOfTurn) }),
        run.stage is CommittingReply && run.next >= run.events.len() ==> run.advanced(event).1 == (
        MirrorStepModel::Finish { outcome: Ok(()) }),
        run.stage is CommittingEcho && run.next >= run.events.len() ==> run.advanced(event).1 == (
        MirrorStepModel::Finish { outcome: Ok(()) }),
{
}

/// A topic gets a title only if there is a topic and its title is another one already; the title
/// follows from the thread and its binding alone.
pub proof fn law_titles_are_applied_once(
    metadata: ThreadMetadata,
    session: Option<&SessionBinding>,
    first: Option<String>,
    again: Option<String>,
    title: &str,
)
    requires
        call_ensures(title_to_apply, (&metadata, session, None), first),
        text::opt_view(first) == Some(title@),
        call_ensures(title_to_apply, (&metadata, session, Some(title)), again),
    ensures
        metadata@.message_thread_id is Some,
        again is None,
{
}

} // verus!
