//! What is shown of the sessions of a workspace: a summary of each, and the records of one.
use vstd::prelude::*;
use vstd::string::*;

use crate::ranking;
use crate::ranking::Ranked;
use crate::repository::{
    BindingModel, EntryModel, RecentCodexSessionEntry, RecentSessionModel, SessionBinding,
    ThreadMetadata, TranscriptMirrorDelivery, TranscriptMirrorEntry, TranscriptMirrorOrigin,
    TranscriptMirrorPhase, TranscriptMirrorRole,
};
use crate::runtime_protocol;
use crate::text;
use crate::thread_state;
use crate::thread_state::BindingStatus;
use crate::workspace_status::{SessionCurrentStatus, WorkspaceStatusPhase};

verus! {

broadcast use vstd::string::group_string_axioms;

/// What a record of a session holds.
#[derive(Debug, Clone, Copy, PartialEq, Eq, Structural)]
pub enum WorkingSessionRecordKind {
    UserPrompt,
    AssistantFinal,
    ProcessPlan,
    ProcessTool,
    Error,
}

/// A summary of a session.
#[derive(Debug, Clone)]
pub struct WorkingSessionSummaryView {
    pub session_id: String,
    pub thread_key: String,
    pub workspace_cwd: String,
    pub started_at: Option<String>,
    pub updated_at: String,
    pub run_status: String,
    pub run_phase: String,
    pub origins_seen: Vec<TranscriptMirrorOrigin>,
    pub record_count: usize,
    pub tool_use_count: usize,
    pub has_final_reply: bool,
    pub last_error: Option<String>,
}

/// The model of a summary.
#[verifier::ext_equal]
pub struct SummaryModel {
    pub session_id: Seq<char>,
    pub thread_key: Seq<char>,
    pub workspace_cwd: Seq<char>,
    pub started_at: Option<Seq<char>>,
    pub updated_at: Seq<char>,
    pub run_status: Seq<char>,
    pub run_phase: Seq<char>,
    pub origins_seen: Seq<TranscriptMirrorOrigin>,
    pub record_count: nat,
    pub tool_use_count: nat,
    pub has_final_reply: bool,
    pub last_error: Option<Seq<char>>,
}

impl View for WorkingSessionSummaryView {
    type V = SummaryModel;

    open spec fn view(&self) -> SummaryModel {
        SummaryModel {
            session_id: self.session_id@,
            thread_key: self.thread_key@,
            workspace_cwd: self.workspace_cwd@,
            started_at: text::opt_view(self.started_at),
            updated_at: self.updated_at@,
            run_status: self.run_status@,
            run_phase: self.run_phase@,
            origins_seen: self.origins_seen@,
            record_count: self.record_count as nat,
            tool_use_count: self.tool_use_count as nat,
            has_final_reply: self.has_final_reply,
            last_error: text::opt_view(self.last_error),
        }
    }
}

impl Ranked for WorkingSessionSummaryView {
    open spec fn before(a: SummaryModel, b: SummaryModel) -> bool {
        text::text_before(b.updated_at, a.updated_at) || (a.updated_at == b.updated_at
            && text::text_before(a.session_id, b.session_id))
    }

    fn ranks_before(&self, other: &Self) -> (res: bool) {
        text::comes_before(other.updated_at.as_str(), self.updated_at.as_str()) || (
        text::same_text(self.updated_at.as_str(), other.updated_at.as_str())
            && text::comes_before(self.session_id.as_str(), other.session_id.as_str()))
    }
}

/// A record of a session.
#[derive(Debug, Clone)]
pub struct WorkingSessionRecordView {
    pub timestamp: String,
    pub session_id: String,
    pub kind: WorkingSessionRecordKind,
    pub origin: Option<TranscriptMirrorOrigin>,
    pub role: Option<TranscriptMirrorRole>,
    pub summary: String,
    pub text: String,
    pub delivery: Option<TranscriptMirrorDelivery>,
    pub phase: Option<TranscriptMirrorPhase>,
    pub source_ref: String,
}

/// The model of a record.
#[verifier::ext_equal]
pub struct RecordModel {
    pub timestamp: Seq<char>,
    pub session_id: Seq<char>,
    pub kind: WorkingSessionRecordKind,
    pub origin: Option<TranscriptMirrorOrigin>,
    pub role: Option<TranscriptMirrorRole>,
    pub summary: Seq<char>,
    pub text: Seq<char>,
    pub delivery: Option<TranscriptMirrorDelivery>,
    pub phase: Option<TranscriptMirrorPhase>,
    pub source_ref: Seq<char>,
}

impl View for WorkingSessionRecordView {
    type V = RecordModel;

    open spec fn view(&self) -> RecordModel {
        RecordModel {
            timestamp: self.timestamp@,
            session_id: self.session_id@,
            kind: self.kind,
            origin: self.origin,
            role: self.role,
            summary: self.summary@,
            text: self.text@,
            delivery: self.delivery,
            phase: self.phase,
            source_ref: self.source_ref@,
        }
    }
}

impl Ranked for WorkingSessionRecordView {
    open spec fn before(a: RecordModel, b: RecordModel) -> bool {
        text::text_before(a.timestamp, b.timestamp)
    }

    fn ranks_before(&self, other: &Self) -> (res: bool) {
        text::comes_before(self.timestamp.as_str(), other.timestamp.as_str())
    }
}

/// What was read of the status of a session.
pub struct SessionStatusReading {
    pub session_id: String,
    pub status: Option<SessionCurrentStatus>,
}

/// What was read of a thread, its binding and the sessions of its workspace. The busy
/// snapshot is the session that runs a turn, or why it could not be asked for.
pub struct WorkingSessionInput {
    pub metadata: ThreadMetadata,
    pub binding: SessionBinding,
    pub entries: Vec<TranscriptMirrorEntry>,
    pub recent_sessions: Vec<RecentCodexSessionEntry>,
    pub readings: Vec<SessionStatusReading>,
    pub busy_snapshot: Result<Option<SessionCurrentStatus>, String>,
}

/// The binding has no workspace whose sessions could be shown.
#[derive(Debug, Clone, Copy, PartialEq, Eq, Structural)]
pub struct MissingWorkspace;

impl MissingWorkspace {
    /// What is wrong, in words.
    pub fn to_text(&self) -> (res: String)
        ensures
            res@ == "managed workspace is missing workspace_cwd"@,
    {
        "managed workspace is missing workspace_cwd".to_owned()
    }
}

/// An error of a session.
#[verifier::ext_equal]
pub struct ErrorModel {
    pub timestamp: Seq<char>,
    pub reason: Seq<char>,
}

/// What is known of a session.
#[verifier::ext_equal]
pub struct AggregateModel {
    pub entries: Seq<EntryModel>,
    pub status_updated_at: Option<Seq<char>>,
    pub is_running: bool,
    pub phase: Option<WorkspaceStatusPhase>,
    pub is_unavailable: bool,
    pub history_updated_at: Option<Seq<char>>,
    pub last_error: Option<ErrorModel>,
}

/// The messages of a session, in their order.
pub open spec fn entries_of(entries: Seq<EntryModel>, session_id: Seq<char>) -> Seq<EntryModel>
    decreases entries.len(),
{
    if entries.len() == 0 {
        Seq::empty()
    } else {
        let before = entries_of(entries.drop_last(), session_id);
        if entries.last().session_id == session_id {
            before.push(entries.last())
        } else {
            before
        }
    }
}

/// When a session was last in use: what its last mention says.
pub open spec fn history_of(recent: Seq<RecentSessionModel>, session_id: Seq<char>) -> Option<
    Seq<char>,
>
    decreases recent.len(),
{
    if recent.len() == 0 {
        None
    } else if recent.last().session_id == session_id {
        Some(recent.last().updated_at)
    } else {
        history_of(recent.drop_last(), session_id)
    }
}

/// The status that was read of a session.
pub open spec fn reading_of(readings: Seq<SessionStatusReading>, session_id: Seq<char>) -> Option<
    SessionCurrentStatus,
>
    decreases readings.len(),
{
    if readings.len() == 0 {
        None
    } else if readings.last().session_id@ == session_id {
        readings.last().status
    } else {
        reading_of(readings.drop_last(), session_id)
    }
}

/// Whether the binding speaks for a session.
pub open spec fn is_authority(binding: BindingModel, session_id: Seq<char>) -> bool {
    binding.current_codex_thread_id == Some(session_id) || binding.tui_active_codex_thread_id
        == Some(session_id)
}

/// Whether one of the first messages is of a session.
pub open spec fn has_message(
    entries: Seq<TranscriptMirrorEntry>,
    count: int,
    session_id: Seq<char>,
) -> bool {
    exists|i: int| 0 <= i < count && (#[trigger] entries[i]).session_id@ == session_id
}

/// Whether one of the first sessions that were in use is the given one.
pub open spec fn has_mention(
    recent: Seq<RecentCodexSessionEntry>,
    count: int,
    session_id: Seq<char>,
) -> bool {
    exists|i: int| 0 <= i < count && (#[trigger] recent[i]).session_id@ == session_id
}

impl WorkingSessionInput {
    /// Whether a session is known: to the binding, from a message, or as lately in use.
    pub open spec fn knows(self, session_id: Seq<char>) -> bool {
        ||| is_authority(self.binding@, session_id)
        ||| has_message(self.entries@, self.entries@.len() as int, session_id)
        ||| has_mention(self.recent_sessions@, self.recent_sessions@.len() as int, session_id)
    }

    /// Whether a list holds the known sessions, each once, in increasing order.
    pub open spec fn lists(self, session_ids: Seq<Seq<char>>) -> bool {
        &&& text::is_increasing(session_ids)
        &&& forall|s: Seq<char>| session_ids.contains(s) <==> #[trigger] self.knows(s)
    }

    /// The error of a session: that of the binding, where it is broken and the session is its
    /// own.
    pub open spec fn error_of(self, session_id: Seq<char>) -> Option<ErrorModel> {
        let binding = self.binding@;
        let reason = runtime_protocol::broken_reason_of(self.metadata@, Some(binding));
        if thread_state::binding_status_of(Some(binding)) == BindingStatus::Broken
            && binding.current_codex_thread_id == Some(session_id) && reason is Some {
            Some(
                ErrorModel {
                    timestamp: text::or_text(
                        runtime_protocol::broken_at_of(self.metadata@, Some(binding)),
                        binding.updated_at,
                    ),
                    reason: reason->0,
                },
            )
        } else {
            None
        }
    }

    /// What is known of a session. Its own status goes first; without one, the session that
    /// runs a turn is known to run; where that could not be asked for, the sessions of the
    /// binding are unavailable.
    pub open spec fn aggregate(self, session_id: Seq<char>) -> AggregateModel {
        let quiet = AggregateModel {
            entries: entries_of(ranking::list_views(self.entries@), session_id),
            status_updated_at: None,
            is_running: false,
            phase: None,
            is_unavailable: false,
            history_updated_at: history_of(
                ranking::list_views(self.recent_sessions@),
                session_id,
            ),
            last_error: self.error_of(session_id),
        };
        match reading_of(self.readings@, session_id) {
            Some(status) => AggregateModel {
                status_updated_at: Some(status.updated_at@),
                is_running: status.phase.is_busy(),
                phase: Some(status.phase),
                ..quiet
            },
            None => match self.busy_snapshot {
                Ok(Some(snapshot)) => if snapshot.session_id@ == session_id {
                    AggregateModel {
                        status_updated_at: Some(snapshot.updated_at@),
                        is_running: true,
                        phase: Some(snapshot.phase),
                        ..quiet
                    }
                } else {
                    quiet
                },
                Ok(None) => quiet,
                Err(_) => if is_authority(self.binding@, session_id) {
                    AggregateModel {
                        status_updated_at: Some(self.binding@.updated_at),
                        is_unavailable: true,
                        ..quiet
                    }
                } else {
                    quiet
                },
            },
        }
    }
}

impl AggregateModel {
    /// When the session was last active: at its last message, else at its last status, else
    /// where it was last mentioned.
    pub open spec fn updated_at(self) -> Option<Seq<char>> {
        if self.entries.len() > 0 {
            Some(self.entries.last().timestamp)
        } else if self.status_updated_at is Some {
            self.status_updated_at
        } else {
            self.history_updated_at
        }
    }

    /// When the session had its first message.
    pub open spec fn started_at(self) -> Option<Seq<char>> {
        if self.entries.len() > 0 {
            Some(self.entries[0].timestamp)
        } else {
            None
        }
    }

    /// The run status as it is shown.
    pub open spec fn run_status(self) -> Seq<char> {
        if self.is_unavailable {
            "unavailable"@
        } else if self.is_running {
            "running"@
        } else {
            "idle"@
        }
    }

    /// The run phase as it is shown.
    pub open spec fn run_phase(self) -> Seq<char> {
        if self.is_unavailable {
            "unavailable"@
        } else {
            match self.phase {
                Some(phase) => phase.name(),
                None => WorkspaceStatusPhase::Idle.name(),
            }
        }
    }
}

/// Whether a message shows the use of a tool.
pub open spec fn is_tool_use(entry: EntryModel) -> bool {
    entry.delivery == TranscriptMirrorDelivery::Process && entry.phase == Some(
        TranscriptMirrorPhase::Tool,
    )
}

/// Whether a message is a final reply.
pub open spec fn is_final_reply(entry: EntryModel) -> bool {
    entry.role == TranscriptMirrorRole::Assistant && entry.delivery
        == TranscriptMirrorDelivery::Final
}

/// Whether a message comes from an origin.
pub open spec fn has_origin(entries: Seq<EntryModel>, origin: TranscriptMirrorOrigin) -> bool {
    exists|i: int| 0 <= i < entries.len() && (#[trigger] entries[i]).origin == origin
}

/// The origin by itself where messages come from it.
pub open spec fn seen(entries: Seq<EntryModel>, origin: TranscriptMirrorOrigin) -> Seq<
    TranscriptMirrorOrigin,
> {
    if has_origin(entries, origin) {
        seq![origin]
    } else {
        Seq::empty()
    }
}

/// The origins that messages come from.
pub open spec fn origins_of(entries: Seq<EntryModel>) -> Seq<TranscriptMirrorOrigin> {
    seen(entries, TranscriptMirrorOrigin::Telegram) + seen(entries, TranscriptMirrorOrigin::Tui)
        + seen(entries, TranscriptMirrorOrigin::Local)
}

/// What a message is in the records of its session.
pub open spec fn record_kind(entry: EntryModel) -> Option<WorkingSessionRecordKind> {
    match (entry.delivery, entry.role) {
        (TranscriptMirrorDelivery::Final, TranscriptMirrorRole::User) => Some(
            WorkingSessionRecordKind::UserPrompt,
        ),
        (TranscriptMirrorDelivery::Final, TranscriptMirrorRole::Assistant) => Some(
            WorkingSessionRecordKind::AssistantFinal,
        ),
        (TranscriptMirrorDelivery::Process, TranscriptMirrorRole::Assistant) => match entry.phase {
            Some(TranscriptMirrorPhase::Plan) => Some(WorkingSessionRecordKind::ProcessPlan),
            Some(TranscriptMirrorPhase::Tool) => Some(WorkingSessionRecordKind::ProcessTool),
            None => None,
        },
        (TranscriptMirrorDelivery::Process, TranscriptMirrorRole::User) => None,
    }
}

/// A text on one short line: at most 120 characters.
pub open spec fn summarized(s: Seq<char>) -> Seq<char> {
    let trimmed = text::trimmed(s);
    if trimmed.len() <= 120 {
        trimmed
    } else {
        trimmed.take(117) + "..."@
    }
}

/// The record of a message.
pub open spec fn record_of(entry: EntryModel, kind: WorkingSessionRecordKind) -> RecordModel {
    RecordModel {
        timestamp: entry.timestamp,
        session_id: entry.session_id,
        kind,
        origin: Some(entry.origin),
        role: Some(entry.role),
        summary: summarized(entry.text),
        text: entry.text,
        delivery: Some(entry.delivery),
        phase: entry.phase,
        source_ref: "transcript_mirror"@,
    }
}

/// The record of an error.
pub open spec fn error_record(session_id: Seq<char>, error: ErrorModel) -> RecordModel {
    RecordModel {
        timestamp: error.timestamp,
        session_id,
        kind: WorkingSessionRecordKind::Error,
        origin: None,
        role: None,
        summary: summarized(error.reason),
        text: error.reason,
        delivery: None,
        phase: None,
        source_ref: "session_binding"@,
    }
}

/// The records of the messages that have one, in their order.
pub open spec fn records_of(entries: Seq<EntryModel>) -> Seq<RecordModel>
    decreases entries.len(),
{
    if entries.len() == 0 {
        Seq::empty()
    } else {
        let before = records_of(entries.drop_last());
        match record_kind(entries.last()) {
            Some(kind) => before.push(record_of(entries.last(), kind)),
            None => before,
        }
    }
}

impl WorkingSessionInput {
    /// The summary of a session.
    pub open spec fn summary(self, workspace: Seq<char>, session_id: Seq<char>) -> SummaryModel {
        let aggregate = self.aggregate(session_id);
        SummaryModel {
            session_id,
            thread_key: self.metadata@.thread_key,
            workspace_cwd: workspace,
            started_at: aggregate.started_at(),
            updated_at: text::or_text(aggregate.updated_at(), self.binding@.updated_at),
            run_status: aggregate.run_status(),
            run_phase: aggregate.run_phase(),
            origins_seen: origins_of(aggregate.entries),
            record_count: aggregate.entries.len() + if aggregate.last_error is Some {
                1nat
            } else {
                0
            },
            tool_use_count: runtime_protocol::tally(
                aggregate.entries,
                |entry: EntryModel| is_tool_use(entry),
            ),
            has_final_reply: exists|i: int|
                0 <= i < aggregate.entries.len() && is_final_reply(#[trigger] aggregate.entries[i]),
            last_error: match aggregate.last_error {
                Some(error) => Some(error.reason),
                None => None,
            },
        }
    }

    /// The summaries of sessions, the latest first.
    pub open spec fn summaries(self, workspace: Seq<char>, session_ids: Seq<Seq<char>>) -> Seq<
        SummaryModel,
    > {
        ranking::stable_sorted(
            Seq::new(session_ids.len(), |i: int| self.summary(workspace, session_ids[i])),
            |a: SummaryModel, b: SummaryModel| WorkingSessionSummaryView::before(a, b),
        )
    }

    /// The records of a session, the earliest first.
    pub open spec fn records(self, session_id: Seq<char>) -> Seq<RecordModel> {
        let aggregate = self.aggregate(session_id);
        ranking::stable_sorted(
            match aggregate.last_error {
                Some(error) => records_of(aggregate.entries).push(
                    error_record(session_id, error),
                ),
                None => records_of(aggregate.entries),
            },
            |a: RecordModel, b: RecordModel| WorkingSessionRecordView::before(a, b),
        )
    }
}

/// What is known of a session.
struct WorkingSessionAggregate {
    entries: Vec<TranscriptMirrorEntry>,
    status_updated_at: Option<String>,
    is_running: bool,
    phase: Option<WorkspaceStatusPhase>,
    is_unavailable: bool,
    history_updated_at: Option<String>,
    last_error: Option<WorkingSessionError>,
}

/// An error of a session.
struct WorkingSessionError {
    timestamp: String,
    reason: String,
}

/// The model of an error that may be absent.
spec fn opt_error(error: Option<WorkingSessionError>) -> Option<ErrorModel> {
    match error {
        Some(error) => Some(ErrorModel { timestamp: error.timestamp@, reason: error.reason@ }),
        None => None,
    }
}

impl View for WorkingSessionAggregate {
    type V = AggregateModel;

    closed spec fn view(&self) -> AggregateModel {
        AggregateModel {
            entries: ranking::list_views(self.entries@),
            status_updated_at: text::opt_view(self.status_updated_at),
            is_running: self.is_running,
            phase: self.phase,
            is_unavailable: self.is_unavailable,
            history_updated_at: text::opt_view(self.history_updated_at),
            last_error: opt_error(self.last_error),
        }
    }
}

/// Whether an optional text is the given one.
fn is_text(text: &Option<String>, wanted: &str) -> (res: bool)
    ensures
        res == (text::opt_view(*text) == Some(wanted@)),
{
    match text {
        Some(s) => text::same_text(s.as_str(), wanted),
        None => false,
    }
}

/// The messages of a session.
fn session_entries(entries: &Vec<TranscriptMirrorEntry>, session_id: &str) -> (res: Vec<
    TranscriptMirrorEntry,
>)
    ensures
        ranking::list_views(res@) == entries_of(ranking::list_views(entries@), session_id@),
        res@.len() <= entries@.len(),
{
    let ghost all = ranking::list_views(entries@);
    let mut res: Vec<TranscriptMirrorEntry> = Vec::new();
    let mut i: usize = 0;
    proof {
        assert(ranking::list_views(res@) =~= entries_of(all.take(0), session_id@));
    }
    while i < entries.len()
        invariant
            i <= entries@.len(),
            all == ranking::list_views(entries@),
            res@.len() <= i,
            ranking::list_views(res@) == entries_of(all.take(i as int), session_id@),
        decreases entries@.len() - i,
    {
        proof {
            let next = all.take(i + 1);
            assert(next.drop_last() =~= all.take(i as int));
            assert(next.last() == entries@[i as int]@);
        }
        if text::same_text(entries[i].session_id.as_str(), session_id) {
            let ghost before = res@;
            res.push(entries[i].clone());
            proof {
                assert(ranking::list_views(res@) =~= ranking::list_views(before).push(
                    entries@[i as int]@,
                ));
            }
        }
        i += 1;
    }
    proof {
        assert(all.take(all.len() as int) =~= all);
    }
    res
}

/// When a session was last in use.
fn session_history(recent: &Vec<RecentCodexSessionEntry>, session_id: &str) -> (res: Option<String>)
    ensures
        text::opt_view(res) == history_of(ranking::list_views(recent@), session_id@),
{
    let ghost all = ranking::list_views(recent@);
    let mut i: usize = recent.len();
    proof {
        assert(all.take(all.len() as int) =~= all);
    }
    while i > 0
        invariant
            i <= recent@.len(),
            all == ranking::list_views(recent@),
            history_of(all, session_id@) == history_of(all.take(i as int), session_id@),
        decreases i,
    {
        i -= 1;
        proof {
            let next = all.take(i + 1);
            assert(next.drop_last() =~= all.take(i as int));
            assert(next.last() == recent@[i as int]@);
        }
        if text::same_text(recent[i].session_id.as_str(), session_id) {
            return Some(recent[i].updated_at.clone());
        }
    }
    None
}

/// The status that was read of a session.
fn session_reading<'a>(readings: &'a Vec<SessionStatusReading>, session_id: &str) -> (res: &'a Option<
    SessionCurrentStatus,
>)
    ensures
        *res == reading_of(readings@, session_id@),
{
    let mut i: usize = readings.len();
    proof {
        assert(readings@.take(readings@.len() as int) =~= readings@);
    }
    while i > 0
        invariant
            i <= readings@.len(),
            reading_of(readings@, session_id@) == reading_of(
                readings@.take(i as int),
                session_id@,
            ),
        decreases i,
    {
        i -= 1;
        proof {
            let next = readings@.take(i + 1);
            assert(next.drop_last() =~= readings@.take(i as int));
            assert(next.last() == readings@[i as int]);
        }
        if text::same_text(readings[i].session_id.as_str(), session_id) {
            return &readings[i].status;
        }
    }
    &None
}

impl WorkingSessionInput {
    /// The known sessions, each once, in increasing order.
    pub fn session_ids(&self) -> (res: Vec<String>)
        ensures
            self.lists(text::views(res@)),
    {
        let mut res: Vec<String> = Vec::new();
        let ghost binding = self.binding@;
        match &self.binding.current_codex_thread_id {
            Some(session_id) => text::add_distinct(&mut res, session_id.clone()),
            None => {},
        }
        match &self.binding.tui_active_codex_thread_id {
            Some(session_id) => text::add_distinct(&mut res, session_id.clone()),
            None => {},
        }
        proof {
            assert forall|s: Seq<char>| #[trigger]
                text::views(res@).contains(s) <==> is_authority(binding, s) || has_message(
                self.entries@,
                0,
                s,
            ) by {}
        }
        let mut i: usize = 0;
        while i < self.entries.len()
            invariant
                i <= self.entries@.len(),
                binding == self.binding@,
                text::is_increasing(text::views(res@)),
                forall|s: Seq<char>| #[trigger]
                    text::views(res@).contains(s) <==> is_authority(binding, s) || has_message(
                        self.entries@,
                        i as int,
                        s,
                    ),
            decreases self.entries@.len() - i,
        {
            let ghost before = text::views(res@);
            text::add_distinct(&mut res, self.entries[i].session_id.clone());
            proof {
                assert forall|s: Seq<char>| #[trigger]
                    text::views(res@).contains(s) <==> is_authority(binding, s) || has_message(
                    self.entries@,
                    i + 1,
                    s,
                ) by {
                    let own = self.entries@[i as int].session_id@;
                    assert(before.contains(s) || s == own <==> text::views(res@).contains(s));
                    assert(has_message(self.entries@, i + 1, s) <==> has_message(
                        self.entries@,
                        i as int,
                        s,
                    ) || s == own);
                }
            }
            i += 1;
        }
        proof {
            assert forall|s: Seq<char>| #[trigger]
                text::views(res@).contains(s) <==> is_authority(binding, s) || has_message(
                self.entries@,
                self.entries@.len() as int,
                s,
            ) || has_mention(self.recent_sessions@, 0, s) by {}
        }
        let mut j: usize = 0;
        while j < self.recent_sessions.len()
            invariant
                j <= self.recent_sessions@.len(),
                binding == self.binding@,
                text::is_increasing(text::views(res@)),
                forall|s: Seq<char>| #[trigger]
                    text::views(res@).contains(s) <==> is_authority(binding, s) || has_message(
                        self.entries@,
                        self.entries@.len() as int,
                        s,
                    ) || has_mention(self.recent_sessions@, j as int, s),
            decreases self.recent_sessions@.len() - j,
        {
            let ghost before = text::views(res@);
            text::add_distinct(&mut res, self.recent_sessions[j].session_id.clone());
            proof {
                assert forall|s: Seq<char>| #[trigger]
                    text::views(res@).contains(s) <==> is_authority(binding, s) || has_message(
                    self.entries@,
                    self.entries@.len() as int,
                    s,
                ) || has_mention(self.recent_sessions@, j + 1, s) by {
                    let own = self.recent_sessions@[j as int].session_id@;
                    assert(before.contains(s) || s == own <==> text::views(res@).contains(s));
                    assert(has_mention(self.recent_sessions@, j + 1, s) <==> has_mention(
                        self.recent_sessions@,
                        j as int,
                        s,
                    ) || s == own);
                }
            }
            j += 1;
        }
        res
    }

    /// The error of a session.
    fn session_error(&self, session_id: &str) -> (res: Option<WorkingSessionError>)
        ensures
            opt_error(res) == self.error_of(session_id@),
    {
        let status = thread_state::resolve_binding_status(&self.metadata, Some(&self.binding));
        if status != BindingStatus::Broken || !is_text(
            &self.binding.current_codex_thread_id,
            session_id,
        ) {
            return None;
        }
        match runtime_protocol::canonical_binding_broken_reason(
            &self.metadata,
            Some(&self.binding),
        ) {
            Some(reason) => {
                let timestamp = match runtime_protocol::canonical_binding_broken_at(
                    &self.metadata,
                    Some(&self.binding),
                ) {
                    Some(at) => at,
                    None => self.binding.updated_at.clone(),
                };
                Some(WorkingSessionError { timestamp, reason })
            },
            None => None,
        }
    }

    /// What is known of a session.
    fn build_aggregate(&self, session_id: &str) -> (res: WorkingSessionAggregate)
        ensures
            res@ == self.aggregate(session_id@),
            res.entries@.len() <= self.entries@.len(),
    {
        let mut res = WorkingSessionAggregate {
            entries: session_entries(&self.entries, session_id),
            status_updated_at: None,
            is_running: false,
            phase: None,
            is_unavailable: false,
            history_updated_at: session_history(&self.recent_sessions, session_id),
            last_error: self.session_error(session_id),
        };
        match session_reading(&self.readings, session_id) {
            Some(status) => {
                res.status_updated_at = Some(status.updated_at.clone());
                res.is_running = status.phase.is_turn_busy();
                res.phase = Some(status.phase);
            },
            None => match &self.busy_snapshot {
                Ok(Some(snapshot)) => {
                    if text::same_text(snapshot.session_id.as_str(), session_id) {
                        res.status_updated_at = Some(snapshot.updated_at.clone());
                        res.is_running = true;
                        res.phase = Some(snapshot.phase);
                    }
                },
                Ok(None) => {},
                Err(_) => {
                    if is_text(&self.binding.current_codex_thread_id, session_id) || is_text(
                        &self.binding.tui_active_codex_thread_id,
                        session_id,
                    ) {
                        res.status_updated_at = Some(self.binding.updated_at.clone());
                        res.is_unavailable = true;
                    }
                },
            },
        }
        res
    }
}

/// When a session was last active.
fn session_updated_at(aggregate: &WorkingSessionAggregate) -> (res: Option<String>)
    ensures
        text::opt_view(res) == aggregate@.updated_at(),
{
    let count: usize = aggregate.entries.len();
    if count > 0 {
        Some(aggregate.entries[count - 1].timestamp.clone())
    } else if aggregate.status_updated_at.is_some() {
        text::clone_opt(&aggregate.status_updated_at)
    } else {
        text::clone_opt(&aggregate.history_updated_at)
    }
}

/// Whether a message comes from an origin.
fn comes_from(entries: &Vec<TranscriptMirrorEntry>, origin: TranscriptMirrorOrigin) -> (res: bool)
    ensures
        res == has_origin(ranking::list_views(entries@), origin),
{
    let ghost all = ranking::list_views(entries@);
    let mut i: usize = 0;
    while i < entries.len()
        invariant
            i <= entries@.len(),
            all == ranking::list_views(entries@),
            forall|k: int| 0 <= k < i ==> (#[trigger] all[k]).origin != origin,
        decreases entries@.len() - i,
    {
        proof {
            assert(all[i as int] == entries@[i as int]@);
        }
        if entries[i].origin == origin {
            return true;
        }
        i += 1;
    }
    false
}

/// The origins that messages come from.
pub fn origins_seen_for_entries(entries: &Vec<TranscriptMirrorEntry>) -> (res: Vec<
    TranscriptMirrorOrigin,
>)
    ensures
        res@ == origins_of(ranking::list_views(entries@)),
{
    let mut res: Vec<TranscriptMirrorOrigin> = Vec::new();
    if comes_from(entries, TranscriptMirrorOrigin::Telegram) {
        res.push(TranscriptMirrorOrigin::Telegram);
    }
    if comes_from(entries, TranscriptMirrorOrigin::Tui) {
        res.push(TranscriptMirrorOrigin::Tui);
    }
    if comes_from(entries, TranscriptMirrorOrigin::Local) {
        res.push(TranscriptMirrorOrigin::Local);
    }
    proof {
        assert(res@ =~= origins_of(ranking::list_views(entries@)));
    }
    res
}

/// A text on one short line.
pub fn truncate_summary(s: &str) -> (res: String)
    ensures
        res@ == summarized(s@),
{
    let trimmed = text::trim(s);
    let chars = text::to_chars(trimmed);
    if chars.len() <= 120 {
        return trimmed.to_owned();
    }
    let mut res = text::string_between(&chars, 0, 117);
    res.push_str("...");
    proof {
        assert(chars@.subrange(0, 117) =~= trimmed@.take(117));
    }
    res
}

/// The record of a message, where it has one.
pub fn working_session_record_from_entry(entry: &TranscriptMirrorEntry) -> (res: Option<
    WorkingSessionRecordView,
>)
    ensures
        match (res, record_kind(entry@)) {
            (Some(record), Some(kind)) => record@ == record_of(entry@, kind),
            (None, None) => true,
            _ => false,
        },
{
    let kind = match (entry.delivery, entry.role) {
        (TranscriptMirrorDelivery::Final, TranscriptMirrorRole::User) => {
            WorkingSessionRecordKind::UserPrompt
        },
        (TranscriptMirrorDelivery::Final, TranscriptMirrorRole::Assistant) => {
            WorkingSessionRecordKind::AssistantFinal
        },
        (TranscriptMirrorDelivery::Process, TranscriptMirrorRole::Assistant) => match entry.phase {
            Some(TranscriptMirrorPhase::Plan) => WorkingSessionRecordKind::ProcessPlan,
            Some(TranscriptMirrorPhase::Tool) => WorkingSessionRecordKind::ProcessTool,
            None => return None,
        },
        (TranscriptMirrorDelivery::Process, TranscriptMirrorRole::User) => return None,
    };
    Some(
        WorkingSessionRecordView {
            timestamp: entry.timestamp.clone(),
            session_id: entry.session_id.clone(),
            kind,
            origin: Some(entry.origin),
            role: Some(entry.role),
            summary: truncate_summary(entry.text.as_str()),
            text: entry.text.clone(),
            delivery: Some(entry.delivery),
            phase: entry.phase,
            source_ref: "transcript_mirror".to_owned(),
        },
    )
}

/// How many messages show the use of a tool, and whether one is a final reply.
fn count_messages(entries: &Vec<TranscriptMirrorEntry>) -> (res: (usize, bool))
    ensures
        res.0 == runtime_protocol::tally(
            ranking::list_views(entries@),
            |entry: EntryModel| is_tool_use(entry),
        ),
        res.1 == exists|i: int|
            0 <= i < entries@.len() && is_final_reply(
                #[trigger] ranking::list_views(entries@)[i],
            ),
{
    let ghost all = ranking::list_views(entries@);
    let ghost counted = |entry: EntryModel| is_tool_use(entry);
    let mut tool_uses: usize = 0;
    let mut has_final_reply = false;
    let mut i: usize = 0;
    while i < entries.len()
        invariant
            i <= entries@.len(),
            tool_uses <= i,
            all == ranking::list_views(entries@),
            counted == (|entry: EntryModel| is_tool_use(entry)),
            tool_uses == runtime_protocol::tally(all.take(i as int), counted),
            has_final_reply == exists|k: int|
                0 <= k < i && is_final_reply(#[trigger] all[k]),
        decreases entries@.len() - i,
    {
        let entry = &entries[i];
        proof {
            let next = all.take(i + 1);
            assert(next.drop_last() =~= all.take(i as int));
            assert(next.last() == entry@);
            assert(all[i as int] == entry@);
        }
        if entry.delivery == TranscriptMirrorDelivery::Process {
            match entry.phase {
                Some(TranscriptMirrorPhase::Tool) => {
                    tool_uses += 1;
                },
                _ => {},
            }
        }
        if entry.role == TranscriptMirrorRole::Assistant && entry.delivery
            == TranscriptMirrorDelivery::Final {
            has_final_reply = true;
        }
        i += 1;
    }
    proof {
        assert(all.take(all.len() as int) =~= all);
    }
    (tool_uses, has_final_reply)
}

impl WorkingSessionInput {
    /// The summary of a session.
    fn build_summary(&self, workspace: &str, session_id: &str) -> (res: WorkingSessionSummaryView)
        requires
            self.entries.len() < usize::MAX,
        ensures
            res@ == self.summary(workspace@, session_id@),
    {
        let aggregate = self.build_aggregate(session_id);
        let ghost model = aggregate@;
        let updated_at = match session_updated_at(&aggregate) {
            Some(at) => at,
            None => self.binding.updated_at.clone(),
        };
        let started_at = if aggregate.entries.len() > 0 {
            Some(aggregate.entries[0].timestamp.clone())
        } else {
            None
        };
        let run_status = if aggregate.is_unavailable {
            "unavailable"
        } else if aggregate.is_running {
            "running"
        } else {
            "idle"
        };
        let run_phase = if aggregate.is_unavailable {
            "unavailable"
        } else {
            match aggregate.phase {
                Some(phase) => phase.as_str(),
                None => WorkspaceStatusPhase::Idle.as_str(),
            }
        };
        let origins_seen = origins_seen_for_entries(&aggregate.entries);
        let (tool_use_count, has_final_reply) = count_messages(&aggregate.entries);
        let errors: usize = if aggregate.last_error.is_some() {
            1
        } else {
            0
        };
        let record_count: usize = aggregate.entries.len() + errors;
        let last_error = match aggregate.last_error {
            Some(error) => Some(error.reason),
            None => None,
        };
        WorkingSessionSummaryView {
            session_id: session_id.to_owned(),
            thread_key: self.metadata.thread_key.clone(),
            workspace_cwd: workspace.to_owned(),
            started_at,
            updated_at,
            run_status: run_status.to_owned(),
            run_phase: run_phase.to_owned(),
            origins_seen,
            record_count,
            tool_use_count,
            has_final_reply,
            last_error,
        }
    }
}

/// The summaries of the known sessions of a workspace, the latest first.
pub fn build_working_session_summaries(input: &WorkingSessionInput) -> (res: Result<
    Vec<WorkingSessionSummaryView>,
    MissingWorkspace,
>)
    requires
        input.entries.len() < usize::MAX,
    ensures
        match input.binding@.workspace_cwd {
            Some(workspace) => res is Ok && exists|session_ids: Seq<Seq<char>>|
                #![trigger input.lists(session_ids)]
                input.lists(session_ids) && ranking::list_views(res->Ok_0@) == input.summaries(
                    workspace,
                    session_ids,
                ),
            None => res is Err,
        },
{
    let workspace = match &input.binding.workspace_cwd {
        Some(workspace) => workspace.as_str(),
        None => return Err(MissingWorkspace),
    };
    let session_ids = input.session_ids();
    let ghost ids = text::views(session_ids@);
    let ghost wanted = Seq::new(ids.len(), |i: int| input.summary(workspace@, ids[i]));
    let mut res: Vec<WorkingSessionSummaryView> = Vec::new();
    let mut i: usize = 0;
    while i < session_ids.len()
        invariant
            i <= session_ids@.len(),
            input.entries.len() < usize::MAX,
            ids == text::views(session_ids@),
            wanted == Seq::new(ids.len(), |i: int| input.summary(workspace@, ids[i])),
            ranking::list_views(res@) =~= wanted.take(i as int),
        decreases session_ids@.len() - i,
    {
        let summary = input.build_summary(workspace, session_ids[i].as_str());
        let ghost before = res@;
        let ghost shown = summary@;
        res.push(summary);
        proof {
            assert(ranking::list_views(res@) =~= ranking::list_views(before).push(shown));
            assert(wanted[i as int] == shown);
        }
        i += 1;
    }
    proof {
        assert(wanted.take(wanted.len() as int) =~= wanted);
        assert(input.lists(ids));
    }
    Ok(ranking::sort_ranked(res))
}

/// The records of a session, the earliest first, where the session is known.
pub fn build_working_session_records(input: &WorkingSessionInput, session_id: &str) -> (res: Result<
    Option<Vec<WorkingSessionRecordView>>,
    MissingWorkspace,
>)
    ensures
        match res {
            Ok(Some(records)) => {
                &&& input.binding@.workspace_cwd is Some
                &&& input.knows(session_id@)
                &&& ranking::list_views(records@) == input.records(session_id@)
            },
            Ok(None) => input.binding@.workspace_cwd is Some && !input.knows(session_id@),
            Err(_) => input.binding@.workspace_cwd is None,
        },
{
    if input.binding.workspace_cwd.is_none() {
        return Err(MissingWorkspace);
    }
    let session_ids = input.session_ids();
    if !text::list_has(&session_ids, session_id) {
        proof {
            assert(!input.knows(session_id@));
        }
        return Ok(None);
    }
    let aggregate = input.build_aggregate(session_id);
    let ghost model = aggregate@;
    let ghost all = model.entries;
    let mut records: Vec<WorkingSessionRecordView> = Vec::new();
    let mut i: usize = 0;
    proof {
        assert(ranking::list_views(records@) =~= records_of(all.take(0)));
    }
    while i < aggregate.entries.len()
        invariant
            i <= aggregate.entries@.len(),
            all == ranking::list_views(aggregate.entries@),
            ranking::list_views(records@) == records_of(all.take(i as int)),
        decreases aggregate.entries@.len() - i,
    {
        proof {
            let next = all.take(i + 1);
            assert(next.drop_last() =~= all.take(i as int));
            assert(next.last() == aggregate.entries@[i as int]@);
        }
        let ghost before = records@;
        match working_session_record_from_entry(&aggregate.entries[i]) {
            Some(record) => {
                let ghost shown = record@;
                records.push(record);
                proof {
                    assert(ranking::list_views(records@) =~= ranking::list_views(before).push(
                        shown,
                    ));
                }
            },
            None => {},
        }
        i += 1;
    }
    proof {
        assert(all.take(all.len() as int) =~= all);
    }
    match aggregate.last_error {
        Some(error) => {
            let ghost before = records@;
            let record = WorkingSessionRecordView {
                timestamp: error.timestamp,
                session_id: session_id.to_owned(),
                kind: WorkingSessionRecordKind::Error,
                origin: None,
                role: None,
                summary: truncate_summary(error.reason.as_str()),
                text: error.reason,
                delivery: None,
                phase: None,
                source_ref: "session_binding".to_owned(),
            };
            let ghost shown = record@;
            records.push(record);
            proof {
                assert(ranking::list_views(records@) =~= ranking::list_views(before).push(shown));
            }
        },
        None => {},
    }
    proof {
        assert(text::views(session_ids@).contains(session_id@));
        assert(input.knows(session_id@));
    }
    Ok(Some(ranking::sort_ranked(records)))
}

/// A summary line never exceeds 120 characters.
pub proof fn law_summary_is_short(s: Seq<char>)
    ensures
        summarized(s).len() <= 120,
{
    reveal_strlit("...");
}

/// One more message at the end of the list adds to the summary of its own session and to no other:
/// it is one record more, one use of a tool more if it shows a step with a tool, a final reply if
/// the assistant gives it as one, and what the session was last active at. The first message is
/// what the session started at.
pub proof fn law_one_more_message_is_counted(
    fewer: WorkingSessionInput,
    more: WorkingSessionInput,
    entry: TranscriptMirrorEntry,
    workspace: Seq<char>,
    session_id: Seq<char>,
)
    requires
        more.entries@ == fewer.entries@.push(entry),
        more.metadata == fewer.metadata,
        more.binding == fewer.binding,
    ensures
        ({
            let before = fewer.summary(workspace, session_id);
            let after = more.summary(workspace, session_id);
            let is_own = entry.session_id@ == session_id;
            &&& after.tool_use_count == before.tool_use_count + if is_own && entry.delivery
                == TranscriptMirrorDelivery::Process && entry.phase == Some(
                TranscriptMirrorPhase::Tool,
            ) {
                1nat
            } else {
                0
            }
            &&& after.record_count == before.record_count + if is_own {
                1nat
            } else {
                0
            }
            &&& after.has_final_reply == (before.has_final_reply || (is_own && entry.role
                == TranscriptMirrorRole::Assistant && entry.delivery
                == TranscriptMirrorDelivery::Final))
            &&& is_own ==> after.updated_at == entry.timestamp@
            &&& is_own && before.started_at is None ==> after.started_at == Some(entry.timestamp@)
            &&& !is_own || before.started_at is Some ==> after.started_at == before.started_at
            &&& after.last_error == before.last_error
        }),
{
    let all = ranking::list_views(fewer.entries@);
    let grown = ranking::list_views(more.entries@);
    assert(grown =~= all.push(entry@));
    assert(grown.drop_last() =~= all);
    let own = entries_of(all, session_id);
    let later = entries_of(grown, session_id);
    if entry.session_id@ == session_id {
        assert(later == own.push(entry@));
        assert(later.drop_last() =~= own);
        let is_final = entry.role == TranscriptMirrorRole::Assistant && entry.delivery
            == TranscriptMirrorDelivery::Final;
        if exists|i: int| 0 <= i < own.len() && is_final_reply(#[trigger] own[i]) {
            let i = choose|i: int| 0 <= i < own.len() && is_final_reply(#[trigger] own[i]);
            assert(is_final_reply(later[i]));
        }
        if is_final {
            assert(is_final_reply(later[own.len() as int]));
        }
        if exists|i: int| 0 <= i < later.len() && is_final_reply(#[trigger] later[i]) {
            let i = choose|i: int| 0 <= i < later.len() && is_final_reply(#[trigger] later[i]);
            if i < own.len() {
                assert(is_final_reply(own[i]));
            }
        }
    } else {
        assert(later == own);
    }
}

/// Without messages there is nothing to count: a summary then speaks of no tool, no reply and no
/// start, and of a record only where there is an error.
pub proof fn law_sessions_without_messages_are_empty(
    input: WorkingSessionInput,
    workspace: Seq<char>,
    session_id: Seq<char>,
)
    requires
        input.entries@.len() == 0,
    ensures
        ({
            let summary = input.summary(workspace, session_id);
            &&& summary.tool_use_count == 0
            &&& !summary.has_final_reply
            &&& summary.started_at is None
            &&& summary.origins_seen.len() == 0
            &&& summary.record_count == if summary.last_error is Some {
                1nat
            } else {
                0
            }
        }),
{
    assert(ranking::list_views(input.entries@) =~= Seq::empty());
}

/// The origins of a session are those that its messages come from, each once, first Telegram,
/// then the terminal, then local clients.
pub proof fn law_origins_are_those_of_the_messages(entries: Seq<EntryModel>)
    ensures
        forall|origin: TranscriptMirrorOrigin| #[trigger]
            origins_of(entries).contains(origin) <==> exists|i: int|
                0 <= i < entries.len() && (#[trigger] entries[i]).origin == origin,
        origins_of(entries).no_duplicates(),
        forall|i: int, j: int|
            0 <= i < j < origins_of(entries).len() ==> #[trigger] origins_of(entries)[i]
                == TranscriptMirrorOrigin::Telegram || #[trigger] origins_of(entries)[j]
                == TranscriptMirrorOrigin::Local,
{
    let origins = origins_of(entries);
    let telegram = seen(entries, TranscriptMirrorOrigin::Telegram);
    let tui = seen(entries, TranscriptMirrorOrigin::Tui);
    let local = seen(entries, TranscriptMirrorOrigin::Local);
    assert forall|origin: TranscriptMirrorOrigin| #[trigger]
        origins.contains(origin) <==> has_origin(entries, origin) by {
        if has_origin(entries, TranscriptMirrorOrigin::Telegram) {
            assert(origins[0] == TranscriptMirrorOrigin::Telegram);
        }
        if has_origin(entries, TranscriptMirrorOrigin::Tui) {
            assert(origins[telegram.len() as int] == TranscriptMirrorOrigin::Tui);
        }
        if has_origin(entries, TranscriptMirrorOrigin::Local) {
            assert(origins[(telegram + tui).len() as int] == TranscriptMirrorOrigin::Local);
        }
    }
}

/// What a message is in the records of its session: what the user said is a prompt and what the
/// assistant said for good a reply; a step of the assistant is a plan or the use of a tool by its
/// phase. Other messages have no record. The record says what the message says, when, in which
/// session and where it comes from.
pub proof fn law_records_show_their_message(entry: EntryModel, kind: WorkingSessionRecordKind)
    ensures
        record_kind(entry) == Some(WorkingSessionRecordKind::UserPrompt) <==> entry.role
            == TranscriptMirrorRole::User && entry.delivery == TranscriptMirrorDelivery::Final,
        record_kind(entry) == Some(WorkingSessionRecordKind::AssistantFinal) <==> entry.role
            == TranscriptMirrorRole::Assistant && entry.delivery == TranscriptMirrorDelivery::Final,
        record_kind(entry) == Some(WorkingSessionRecordKind::ProcessPlan) <==> entry.role
            == TranscriptMirrorRole::Assistant && entry.delivery
            == TranscriptMirrorDelivery::Process && entry.phase == Some(
            TranscriptMirrorPhase::Plan,
        ),
        record_kind(entry) == Some(WorkingSessionRecordKind::ProcessTool) <==> entry.role
            == TranscriptMirrorRole::Assistant && entry.delivery
            == TranscriptMirrorDelivery::Process && entry.phase == Some(
            TranscriptMirrorPhase::Tool,
        ),
        record_kind(entry) != Some(WorkingSessionRecordKind::Error),
        ({
            let record = record_of(entry, kind);
            &&& record.kind == kind
            &&& record.timestamp == entry.timestamp
            &&& record.session_id == entry.session_id
            &&& record.text == entry.text
            &&& record.origin == Some(entry.origin)
            &&& record.role == Some(entry.role)
            &&& record.delivery == Some(entry.delivery)
            &&& record.phase == entry.phase
        }),
{
}

/// Where only the assistant takes steps, the records of a session show as many uses of a tool as
/// its summary counts.
pub proof fn law_summaries_count_the_records(
    input: WorkingSessionInput,
    workspace: Seq<char>,
    session_id: Seq<char>,
)
    requires
        forall|i: int|
            #![trigger input.entries@[i]]
            0 <= i < input.entries@.len() && input.entries@[i].delivery
                == TranscriptMirrorDelivery::Process ==> input.entries@[i].role
                == TranscriptMirrorRole::Assistant,
    ensures
        input.summary(workspace, session_id).tool_use_count == input.records(
            session_id,
        ).to_multiset().filter(
            |record: RecordModel| record.kind == WorkingSessionRecordKind::ProcessTool,
        ).len(),
{
    let own = entries_of(ranking::list_views(input.entries@), session_id);
    let is_tool = |record: RecordModel| record.kind == WorkingSessionRecordKind::ProcessTool;
    assert forall|i: int| 0 <= i < own.len() && (#[trigger] own[i]).delivery
        == TranscriptMirrorDelivery::Process implies own[i].role
        == TranscriptMirrorRole::Assistant by {
        lemma_own_entries(ranking::list_views(input.entries@), session_id);
        let k = choose|k: int|
            0 <= k < input.entries@.len() && ranking::list_views(input.entries@)[k] == own[i];
        assert(input.entries@[k]@ == own[i]);
    }
    lemma_tools_recorded(own);
    broadcast use vstd::seq_lib::group_to_multiset_ensures;

    let aggregate = input.aggregate(session_id);
    let plain = records_of(own);
    let listed = match aggregate.last_error {
        Some(error) => plain.push(error_record(session_id, error)),
        None => plain,
    };
    ranking::law_sorted_is_permutation(
        listed,
        |a: RecordModel, b: RecordModel| WorkingSessionRecordView::before(a, b),
    );
    if aggregate.last_error is Some {
        let error = error_record(session_id, aggregate.last_error->0);
        lemma_filter_insert(plain.to_multiset(), error, is_tool);
    }
}

/// The messages of a session are messages of the list.
proof fn lemma_own_entries(entries: Seq<EntryModel>, session_id: Seq<char>)
    ensures
        forall|i: int|
            0 <= i < entries_of(entries, session_id).len() ==> entries.contains(
                #[trigger] entries_of(entries, session_id)[i],
            ),
    decreases entries.len(),
{
    if entries.len() > 0 {
        let before = entries_of(entries.drop_last(), session_id);
        let own = entries_of(entries, session_id);
        lemma_own_entries(entries.drop_last(), session_id);
        assert forall|i: int| 0 <= i < own.len() implies entries.contains(#[trigger] own[i]) by {
            if i < before.len() {
                assert(own[i] == before[i]);
                let k = choose|k: int|
                    0 <= k < entries.drop_last().len() && entries.drop_last()[k] == before[i];
                assert(entries[k] == own[i]);
            } else {
                assert(entries[entries.len() - 1] == own[i]);
            }
        }
    }
}

/// One more element is counted if it is of the kind.
proof fn lemma_filter_insert(
    records: vstd::multiset::Multiset<RecordModel>,
    record: RecordModel,
    is_counted: spec_fn(RecordModel) -> bool,
)
    ensures
        records.insert(record).filter(is_counted).len() == records.filter(is_counted).len()
            + if is_counted(record) {
            1nat
        } else {
            0
        },
{
    broadcast use vstd::multiset::group_multiset_axioms;

    if is_counted(record) {
        assert(records.insert(record).filter(is_counted) =~= records.filter(is_counted).insert(
            record,
        ));
    } else {
        assert(records.insert(record).filter(is_counted) =~= records.filter(is_counted));
    }
}

/// The records of messages show the uses of a tool that the messages show.
proof fn lemma_tools_recorded(entries: Seq<EntryModel>)
    requires
        forall|i: int|
            0 <= i < entries.len() && (#[trigger] entries[i]).delivery
                == TranscriptMirrorDelivery::Process ==> entries[i].role
                == TranscriptMirrorRole::Assistant,
    ensures
        records_of(entries).to_multiset().filter(
            |record: RecordModel| record.kind == WorkingSessionRecordKind::ProcessTool,
        ).len() == runtime_protocol::tally(entries, |entry: EntryModel| is_tool_use(entry)),
    decreases entries.len(),
{
    broadcast use vstd::seq_lib::group_to_multiset_ensures;
    broadcast use vstd::multiset::group_multiset_axioms;

    let is_tool = |record: RecordModel| record.kind == WorkingSessionRecordKind::ProcessTool;
    if entries.len() == 0 {
        assert(records_of(entries).to_multiset().filter(is_tool)
            =~= vstd::multiset::Multiset::empty());
    } else {
        let before = entries.drop_last();
        assert forall|i: int| 0 <= i < before.len() && (#[trigger] before[i]).delivery
            == TranscriptMirrorDelivery::Process implies before[i].role
            == TranscriptMirrorRole::Assistant by {
            assert(before[i] == entries[i]);
        }
        lemma_tools_recorded(before);
        let last = entries[entries.len() - 1];
        assert(entries.last() == last);
        if record_kind(last) is Some {
            lemma_filter_insert(
                records_of(before).to_multiset(),
                record_of(last, record_kind(last)->0),
                is_tool,
            );
        }
    }
}

/// What a session does is what its status says: it runs while a turn of it runs or is being
/// finished. Without a status of its own it runs where it is the busy one; where that could not be
/// asked for the sessions of the binding are unavailable, and all others idle.
pub proof fn law_summaries_say_what_a_session_does(
    input: WorkingSessionInput,
    workspace: Seq<char>,
    session_id: Seq<char>,
)
    ensures
        ({
            let summary = input.summary(workspace, session_id);
            let reading = reading_of(input.readings@, session_id);
            let is_named = input.binding@.current_codex_thread_id == Some(session_id)
                || input.binding@.tui_active_codex_thread_id == Some(session_id);
            &&& summary.session_id == session_id && summary.workspace_cwd == workspace
                && summary.thread_key == input.metadata.thread_key@
            &&& reading matches Some(status) ==> summary.run_status == if status.phase
                is TurnRunning || status.phase is TurnFinalizing {
                "running"@
            } else {
                "idle"@
            }
            &&& reading matches Some(status) ==> summary.run_phase == status.phase.name()
            &&& input.busy_snapshot matches Ok(Some(busy)) ==> (reading is None && busy.session_id@
                == session_id ==> summary.run_status == "running"@ && summary.run_phase
                == busy.phase.name()) && (reading is None && busy.session_id@ != session_id
                ==> summary.run_status == "idle"@)
            &&& input.busy_snapshot matches Ok(None) ==> (reading is None ==> summary.run_status
                == "idle"@ && summary.run_phase == "idle"@)
            &&& reading is None && input.busy_snapshot is Err && is_named ==> summary.run_status
                == "unavailable"@ && summary.run_phase == "unavailable"@
            &&& reading is None && input.busy_snapshot is Err && !is_named ==> summary.run_status
                == "idle"@
        }),
{
}

/// Only the session that a broken binding names has an error: the reason why it is broken, which is
/// then a record of the session too.
pub proof fn law_errors_are_those_of_a_broken_binding(
    input: WorkingSessionInput,
    workspace: Seq<char>,
    session_id: Seq<char>,
)
    ensures
        ({
            let error = input.summary(workspace, session_id).last_error;
            let binding = input.binding@;
            &&& error is Some ==> binding.session_broken && binding.current_codex_thread_id == Some(
                session_id,
            )
            &&& binding.session_broken && binding.current_codex_thread_id == Some(session_id)
                && binding.workspace_cwd is Some && !text::is_blank(binding.workspace_cwd->0)
                && binding.session_broken_reason is Some ==> error == binding.session_broken_reason
        }),
{
}

/// A text of up to 120 characters is shown in full, without the white space around it; a longer one
/// is cut, with its first 117 characters and three dots.
pub proof fn law_summaries_keep_the_beginning(s: Seq<char>)
    ensures
        text::trimmed(s).len() <= 120 ==> summarized(s) == text::trimmed(s),
        text::trimmed(s).len() > 120 ==> summarized(s).len() == 120 && summarized(s).take(117)
            == text::trimmed(s).take(117) && text::occurs_at(summarized(s), "..."@, 117),
{
    reveal_strlit("...");
    if text::trimmed(s).len() > 120 {
        assert(summarized(s).take(117) =~= text::trimmed(s).take(117));
        assert(summarized(s).subrange(117, 120) =~= "..."@);
    }
}

/// Sessions are shown with the latest first, and records with the earliest first; none of them is
/// lost or shown twice.
pub proof fn law_sessions_and_records_are_ordered(
    input: WorkingSessionInput,
    workspace: Seq<char>,
    session_ids: Seq<Seq<char>>,
    session_id: Seq<char>,
)
    ensures
        ({
            let summaries = input.summaries(workspace, session_ids);
            &&& summaries.len() == session_ids.len()
            &&& forall|i: int, j: int|
                0 <= i < j < summaries.len() ==> !text::text_before(
                    (#[trigger] summaries[i]).updated_at,
                    (#[trigger] summaries[j]).updated_at,
                )
        }),
        ({
            let records = input.records(session_id);
            forall|i: int, j: int|
                0 <= i < j < records.len() ==> !text::text_before(
                    (#[trigger] records[j]).timestamp,
                    (#[trigger] records[i]).timestamp,
                )
        }),
{
    let all = Seq::new(session_ids.len(), |i: int| input.summary(workspace, session_ids[i]));
    let by_time = |a: SummaryModel, b: SummaryModel| WorkingSessionSummaryView::before(a, b);
    assert(ranking::is_order(by_time)) by {
        assert forall|a: SummaryModel, b: SummaryModel| #[trigger] by_time(a, b) implies !by_time(
            b,
            a,
        ) by {
            text::lemma_text_order(a.updated_at, b.updated_at);
            text::lemma_text_order(a.session_id, b.session_id);
        }
        assert forall|a: SummaryModel, b: SummaryModel, c: SummaryModel|
            !#[trigger] by_time(b, a) && !#[trigger] by_time(c, b) implies !by_time(c, a) by {
            lemma_not_before(a.updated_at, b.updated_at);
            lemma_not_before(b.updated_at, c.updated_at);
            lemma_not_before(a.updated_at, c.updated_at);
            lemma_not_before(a.session_id, b.session_id);
            lemma_not_before(b.session_id, c.session_id);
            lemma_not_before(a.session_id, c.session_id);
            lemma_chain(c.updated_at, b.updated_at, a.updated_at);
            lemma_chain(a.session_id, b.session_id, c.session_id);
        }
    }
    ranking::law_sorted_is_sorted(all, by_time);
    ranking::law_sorted_is_permutation(all, by_time);
    let summaries = input.summaries(workspace, session_ids);
    assert forall|i: int, j: int| 0 <= i < j < summaries.len() implies !text::text_before(
        (#[trigger] summaries[i]).updated_at,
        (#[trigger] summaries[j]).updated_at,
    ) by {
        assert(!by_time(summaries[j], summaries[i]));
    }
    let aggregate = input.aggregate(session_id);
    let listed = match aggregate.last_error {
        Some(error) => records_of(aggregate.entries).push(error_record(session_id, error)),
        None => records_of(aggregate.entries),
    };
    let early = |a: RecordModel, b: RecordModel| WorkingSessionRecordView::before(a, b);
    assert(ranking::is_order(early)) by {
        assert forall|a: RecordModel, b: RecordModel| #[trigger] early(a, b) implies !early(b, a) by {
            text::lemma_text_order(a.timestamp, b.timestamp);
        }
        assert forall|a: RecordModel, b: RecordModel, c: RecordModel|
            !#[trigger] early(b, a) && !#[trigger] early(c, b) implies !early(c, a) by {
            lemma_not_before(a.timestamp, b.timestamp);
            lemma_not_before(b.timestamp, c.timestamp);
            lemma_not_before(a.timestamp, c.timestamp);
            lemma_chain(a.timestamp, b.timestamp, c.timestamp);
        }
    }
    ranking::law_sorted_is_sorted(listed, early);
    let records = input.records(session_id);
    assert forall|i: int, j: int| 0 <= i < j < records.len() implies !text::text_before(
        (#[trigger] records[j]).timestamp,
        (#[trigger] records[i]).timestamp,
    ) by {
        assert(!early(records[j], records[i]));
    }
}

/// Of two texts one comes before the other, or they are the same.
proof fn lemma_not_before(a: Seq<char>, b: Seq<char>)
    ensures
        !(text::text_before(a, b) && text::text_before(b, a)),
        !text::text_before(a, b) && !text::text_before(b, a) ==> a == b,
{
    text::lemma_text_order(a, b);
}

/// Texts that follow one another are in order.
proof fn lemma_chain(a: Seq<char>, b: Seq<char>, c: Seq<char>)
    ensures
        text::text_before(a, b) && text::text_before(b, c) ==> text::text_before(a, c),
{
    if text::text_before(a, b) && text::text_before(b, c) {
        text::lemma_text_order_transitive(a, b, c);
    }
}

} // verus!
