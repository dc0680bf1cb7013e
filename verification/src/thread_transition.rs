//! The transitions of a thread, each a function from its metadata and its binding.
use vstd::prelude::*;
use vstd::string::*;

use crate::execution_mode::SessionExecutionSnapshot;
use crate::repository;
use crate::repository::{
    BindingModel, MetadataModel, RecentCodexSessionEntry, RecentSessionModel, SessionBinding,
    ThreadMetadata, ThreadStatus,
};
use crate::thread_state;
use crate::thread_state::BindingStatus;

verus! {

broadcast use vstd::string::group_string_axioms;

/// What happens to a thread.
pub enum ThreadTransition {
    BindWorkspace {
        workspace_cwd: String,
        codex_thread_id: String,
        execution: SessionExecutionSnapshot,
    },
    VerifySession,
    SelectSession { session_id: String },
    MarkBroken { reason: String },
    Archive,
    Restore { message_thread_id: i32, title: String },
}

/// What happens to the binding of a thread.
#[derive(Debug)]
pub enum BindingMutation {
    Unchanged,
    Write(SessionBinding),
}

/// What becomes of a thread.
#[derive(Debug)]
pub struct TransitionResult {
    pub metadata: ThreadMetadata,
    pub binding: BindingMutation,
    pub recent_session: Option<RecentCodexSessionEntry>,
}

/// Why a transition is refused.
#[derive(Debug, Clone, Copy, PartialEq, Eq, Structural)]
pub enum TransitionError {
    BindingMissing,
    WorkspaceMissing,
}

impl TransitionError {
    /// The error in words.
    pub open spec fn message(self) -> Seq<char> {
        match self {
            TransitionError::BindingMissing => "session binding is missing"@,
            TransitionError::WorkspaceMissing => "session binding workspace is missing"@,
        }
    }

    /// The error in words.
    pub fn to_text(self) -> (res: String)
        ensures
            res@ == self.message(),
    {
        match self {
            TransitionError::BindingMissing => "session binding is missing".to_owned(),
            TransitionError::WorkspaceMissing => "session binding workspace is missing".to_owned(),
        }
    }
}

/// The model of what becomes of a thread: its metadata, its binding where that is written,
/// and the session to remember.
#[verifier::ext_equal]
pub struct OutcomeModel {
    pub metadata: MetadataModel,
    pub written: Option<BindingModel>,
    pub recent: Option<RecentSessionModel>,
}

impl View for TransitionResult {
    type V = OutcomeModel;

    open spec fn view(&self) -> OutcomeModel {
        OutcomeModel {
            metadata: self.metadata@,
            written: match self.binding {
                BindingMutation::Unchanged => None,
                BindingMutation::Write(binding) => Some(binding@),
            },
            recent: match self.recent_session {
                Some(entry) => Some(entry@),
                None => None,
            },
        }
    }
}

/// The metadata after a turn of Codex that worked.
pub open spec fn used(metadata: MetadataModel, now: Seq<char>) -> MetadataModel {
    MetadataModel {
        last_codex_turn_at: Some(now),
        session_broken: false,
        session_broken_at: None,
        session_broken_reason: None,
        ..metadata
    }
}

/// A thread bound to a workspace and a new session.
pub open spec fn bound(
    metadata: MetadataModel,
    workspace_cwd: Seq<char>,
    session_id: Seq<char>,
    execution: SessionExecutionSnapshot,
    now: Seq<char>,
) -> OutcomeModel {
    OutcomeModel {
        metadata: used(metadata, now),
        written: Some(
            BindingModel::fresh(Some(workspace_cwd), Some(session_id), execution).touched(now),
        ),
        recent: Some(
            RecentSessionModel {
                session_id,
                updated_at: now,
                execution_mode: execution.execution_mode,
            },
        ),
    }
}

/// A thread whose session was found to work.
pub open spec fn verified(
    metadata: MetadataModel,
    binding: BindingModel,
    now: Seq<char>,
) -> OutcomeModel {
    OutcomeModel {
        metadata: used(metadata, now),
        written: Some(binding.verified(now)),
        recent: None,
    }
}

/// A thread for which another session was selected.
pub open spec fn selected(
    metadata: MetadataModel,
    binding: BindingModel,
    session_id: Seq<char>,
    now: Seq<char>,
) -> OutcomeModel {
    OutcomeModel {
        metadata: used(metadata, now),
        written: Some(binding.selected_session(session_id, now)),
        recent: if binding.workspace_cwd is Some {
            Some(
                RecentSessionModel {
                    session_id,
                    updated_at: now,
                    execution_mode: binding.current_execution_mode,
                },
            )
        } else {
            None
        },
    }
}

/// A thread whose session was found not to work.
pub open spec fn broken(
    metadata: MetadataModel,
    binding: BindingModel,
    reason: Seq<char>,
    now: Seq<char>,
) -> OutcomeModel {
    OutcomeModel {
        metadata: MetadataModel {
            session_broken: true,
            session_broken_at: Some(now),
            session_broken_reason: Some(reason),
            ..metadata
        },
        written: Some(binding.broken(reason, now)),
        recent: None,
    }
}

/// A thread that was archived.
pub open spec fn archived(metadata: MetadataModel, now: Seq<char>) -> OutcomeModel {
    OutcomeModel {
        metadata: MetadataModel {
            archived_at: Some(now),
            status: ThreadStatus::Archived,
            ..metadata
        },
        written: None,
        recent: None,
    }
}

/// The topics that a thread had before, once it moves to another one.
pub open spec fn previous_topics(metadata: MetadataModel, message_thread_id: i32) -> Seq<i32> {
    match metadata.message_thread_id {
        Some(current) if current != message_thread_id
            && !metadata.previous_message_thread_ids.contains(current) => {
            metadata.previous_message_thread_ids.push(current)
        },
        _ => metadata.previous_message_thread_ids,
    }
}

/// A thread that was restored in a topic.
pub open spec fn restored(
    metadata: MetadataModel,
    message_thread_id: i32,
    title: Seq<char>,
) -> OutcomeModel {
    OutcomeModel {
        metadata: MetadataModel {
            archived_at: None,
            message_thread_id: Some(message_thread_id),
            previous_message_thread_ids: previous_topics(metadata, message_thread_id),
            status: ThreadStatus::Active,
            title: Some(title),
            ..metadata
        },
        written: None,
        recent: None,
    }
}

/// What becomes of a thread by a transition, or why the transition is refused.
pub open spec fn outcome(
    metadata: MetadataModel,
    binding: Option<BindingModel>,
    transition: ThreadTransition,
    now: Seq<char>,
) -> Result<OutcomeModel, TransitionError> {
    match transition {
        ThreadTransition::BindWorkspace { workspace_cwd, codex_thread_id, execution } => Ok(
            bound(metadata, workspace_cwd@, codex_thread_id@, execution, now),
        ),
        ThreadTransition::VerifySession => match binding {
            Some(binding) => Ok(verified(metadata, binding, now)),
            None => Err(TransitionError::BindingMissing),
        },
        ThreadTransition::SelectSession { session_id } => match binding {
            Some(binding) => Ok(selected(metadata, binding, session_id@, now)),
            None => Err(TransitionError::BindingMissing),
        },
        ThreadTransition::MarkBroken { reason } => match binding {
            Some(inner) => if thread_state::workspace_of(binding) is None {
                Err(TransitionError::WorkspaceMissing)
            } else {
                Ok(broken(metadata, inner, reason@, now))
            },
            None => Err(TransitionError::BindingMissing),
        },
        ThreadTransition::Archive => Ok(archived(metadata, now)),
        ThreadTransition::Restore { message_thread_id, title } => Ok(
            restored(metadata, message_thread_id, title@),
        ),
    }
}

/// Whether a result of an executable function is the modelled one.
pub open spec fn is_outcome(
    res: Result<TransitionResult, TransitionError>,
    model: Result<OutcomeModel, TransitionError>,
) -> bool {
    match (res, model) {
        (Ok(result), Ok(expected)) => result@ == expected,
        (Err(error), Err(expected)) => error == expected,
        _ => false,
    }
}

/// Applies a transition to a thread.
pub fn apply_transition(
    metadata: &ThreadMetadata,
    binding: Option<SessionBinding>,
    transition: ThreadTransition,
    now: &str,
) -> (res: Result<TransitionResult, TransitionError>)
    ensures
        is_outcome(res, outcome(metadata@, repository::opt_binding(binding), transition, now@)),
{
    match transition {
        ThreadTransition::BindWorkspace { workspace_cwd, codex_thread_id, execution } => Ok(
            bind_workspace(metadata, workspace_cwd, codex_thread_id, execution, now),
        ),
        ThreadTransition::VerifySession => verify_session(metadata, binding, now),
        ThreadTransition::SelectSession { session_id } => select_session(
            metadata,
            binding,
            session_id,
            now,
        ),
        ThreadTransition::MarkBroken { reason } => mark_broken(metadata, binding, reason, now),
        ThreadTransition::Archive => Ok(archive(metadata, now)),
        ThreadTransition::Restore { message_thread_id, title } => Ok(
            restore(metadata, message_thread_id, title),
        ),
    }
}

/// The metadata after a turn of Codex that worked.
fn use_metadata(metadata: &ThreadMetadata, now: &str) -> (res: ThreadMetadata)
    ensures
        res@ == used(metadata@, now@),
{
    ThreadMetadata {
        last_codex_turn_at: Some(now.to_owned()),
        session_broken: false,
        session_broken_at: None,
        session_broken_reason: None,
        ..metadata.clone()
    }
}

/// Binds a thread to a workspace and a new session.
pub fn bind_workspace(
    metadata: &ThreadMetadata,
    workspace_cwd: String,
    codex_thread_id: String,
    execution: SessionExecutionSnapshot,
    now: &str,
) -> (res: TransitionResult)
    ensures
        res@ == bound(metadata@, workspace_cwd@, codex_thread_id@, execution, now@),
{
    let session_id = codex_thread_id.clone();
    let binding = SessionBinding::fresh(Some(workspace_cwd), Some(codex_thread_id), execution);
    let execution_mode = binding.current_execution_mode;
    TransitionResult {
        metadata: use_metadata(metadata, now),
        binding: BindingMutation::Write(binding.touched(now)),
        recent_session: Some(
            RecentCodexSessionEntry { session_id, updated_at: now.to_owned(), execution_mode },
        ),
    }
}

/// Notes that the session of a thread works.
pub fn verify_session(
    metadata: &ThreadMetadata,
    binding: Option<SessionBinding>,
    now: &str,
) -> (res: Result<TransitionResult, TransitionError>)
    ensures
        is_outcome(
            res,
            outcome(
                metadata@,
                repository::opt_binding(binding),
                ThreadTransition::VerifySession,
                now@,
            ),
        ),
{
    match binding {
        Some(binding) => Ok(
            TransitionResult {
                metadata: use_metadata(metadata, now),
                binding: BindingMutation::Write(binding.verified(now)),
                recent_session: None,
            },
        ),
        None => Err(TransitionError::BindingMissing),
    }
}

/// Selects another session for a thread.
pub fn select_session(
    metadata: &ThreadMetadata,
    binding: Option<SessionBinding>,
    session_id: String,
    now: &str,
) -> (res: Result<TransitionResult, TransitionError>)
    ensures
        is_outcome(
            res,
            outcome(
                metadata@,
                repository::opt_binding(binding),
                ThreadTransition::SelectSession { session_id },
                now@,
            ),
        ),
{
    let binding = match binding {
        Some(binding) => binding,
        None => return Err(TransitionError::BindingMissing),
    };
    let execution_mode = binding.current_execution_mode;
    let recent_session = if binding.workspace_cwd.is_some() {
        Some(
            RecentCodexSessionEntry {
                session_id: session_id.clone(),
                updated_at: now.to_owned(),
                execution_mode,
            },
        )
    } else {
        None
    };
    Ok(
        TransitionResult {
            metadata: use_metadata(metadata, now),
            binding: BindingMutation::Write(binding.selected_session(session_id, now)),
            recent_session,
        },
    )
}

/// Notes that the session of a thread does not work.
pub fn mark_broken(
    metadata: &ThreadMetadata,
    binding: Option<SessionBinding>,
    reason: String,
    now: &str,
) -> (res: Result<TransitionResult, TransitionError>)
    ensures
        is_outcome(
            res,
            outcome(
                metadata@,
                repository::opt_binding(binding),
                ThreadTransition::MarkBroken { reason },
                now@,
            ),
        ),
{
    let binding = match binding {
        Some(binding) => binding,
        None => return Err(TransitionError::BindingMissing),
    };
    if thread_state::binding_workspace_path(Some(&binding)).is_none() {
        return Err(TransitionError::WorkspaceMissing);
    }
    let metadata = ThreadMetadata {
        session_broken: true,
        session_broken_at: Some(now.to_owned()),
        session_broken_reason: Some(reason.clone()),
        ..metadata.clone()
    };
    Ok(
        TransitionResult {
            metadata,
            binding: BindingMutation::Write(binding.broken(reason, now)),
            recent_session: None,
        },
    )
}

/// Archives a thread.
pub fn archive(metadata: &ThreadMetadata, now: &str) -> (res: TransitionResult)
    ensures
        res@ == archived(metadata@, now@),
{
    TransitionResult {
        metadata: ThreadMetadata {
            archived_at: Some(now.to_owned()),
            status: ThreadStatus::Archived,
            ..metadata.clone()
        },
        binding: BindingMutation::Unchanged,
        recent_session: None,
    }
}

/// Whether a number is in a list.
fn has_id(ids: &Vec<i32>, id: i32) -> (res: bool)
    ensures
        res == ids@.contains(id),
{
    let mut i: usize = 0;
    while i < ids.len()
        invariant
            i <= ids@.len(),
            forall|k: int| 0 <= k < i ==> ids@[k] != id,
        decreases ids@.len() - i,
    {
        if ids[i] == id {
            return true;
        }
        i += 1;
    }
    false
}

/// Restores a thread in a topic.
pub fn restore(metadata: &ThreadMetadata, message_thread_id: i32, title: String) -> (res:
    TransitionResult)
    ensures
        res@ == restored(metadata@, message_thread_id, title@),
{
    let mut previous = repository::copy_ids(&metadata.previous_message_thread_ids);
    if let Some(current) = metadata.message_thread_id {
        if current != message_thread_id && !has_id(&previous, current) {
            previous.push(current);
        }
    }
    TransitionResult {
        metadata: ThreadMetadata {
            archived_at: None,
            message_thread_id: Some(message_thread_id),
            previous_message_thread_ids: previous,
            status: ThreadStatus::Active,
            title: Some(title),
            ..metadata.clone()
        },
        binding: BindingMutation::Unchanged,
        recent_session: None,
    }
}

/// A thread that is marked broken is broken, and its session works again once it is
/// verified; nothing else of the binding is lost by that.
pub proof fn law_verify_mends_broken(
    metadata: MetadataModel,
    binding: BindingModel,
    reason: Seq<char>,
    then: Seq<char>,
    now: Seq<char>,
)
    requires
        thread_state::workspace_of(Some(binding)) is Some,
    ensures
        thread_state::binding_status_of(broken(metadata, binding, reason, then).written)
            == BindingStatus::Broken,
        ({
            let after = broken(metadata, binding, reason, then);
            let mended = verified(after.metadata, after.written->0, now);
            &&& thread_state::binding_status_of(mended.written) == BindingStatus::Healthy
            &&& mended.written == verified(metadata, binding, now).written
            &&& mended.metadata == verified(metadata, binding, now).metadata
        }),
{
}

/// Binding, verifying and selecting leave no mark that the session is broken, neither in
/// the metadata nor in the binding.
pub proof fn law_use_clears_broken(
    metadata: MetadataModel,
    binding: Option<BindingModel>,
    transition: ThreadTransition,
    now: Seq<char>,
)
    requires
        transition is BindWorkspace || transition is VerifySession || transition is SelectSession,
    ensures
        outcome(metadata, binding, transition, now) matches Ok(result) ==> {
            &&& !result.metadata.session_broken
            &&& result.metadata.session_broken_reason is None
            &&& result.metadata.session_broken_at is None
            &&& result.written is Some
            &&& !result.written->0.session_broken
            &&& result.written->0.session_broken_reason is None
            &&& result.metadata.last_codex_turn_at == Some(now)
        },
{
}

/// Archiving and restoring write no binding, and they leave the mark that a session is
/// broken as it was.
pub proof fn law_archive_keeps_binding(
    metadata: MetadataModel,
    now: Seq<char>,
    message_thread_id: i32,
    title: Seq<char>,
)
    ensures
        archived(metadata, now).written is None,
        restored(metadata, message_thread_id, title).written is None,
        archived(metadata, now).metadata.session_broken == metadata.session_broken,
        archived(metadata, now).metadata.session_broken_reason == metadata.session_broken_reason,
        restored(metadata, message_thread_id, title).metadata.session_broken
            == metadata.session_broken,
        restored(metadata, message_thread_id, title).metadata.session_broken_reason
            == metadata.session_broken_reason,
{
}

/// Restoring undoes archiving: in the topic and with the title that a thread had, nothing
/// of the thread has changed.
pub proof fn law_restore_undoes_archive(
    metadata: MetadataModel,
    now: Seq<char>,
    message_thread_id: i32,
    title: Seq<char>,
)
    requires
        metadata.status == ThreadStatus::Active,
        metadata.archived_at is None,
        metadata.message_thread_id == Some(message_thread_id),
        metadata.title == Some(title),
    ensures
        restored(archived(metadata, now).metadata, message_thread_id, title).metadata == metadata,
{
}

/// No topic is remembered twice, and the topic that is left is remembered.
pub proof fn law_previous_topics_are_distinct(metadata: MetadataModel, message_thread_id: i32)
    requires
        metadata.previous_message_thread_ids.no_duplicates(),
    ensures
        previous_topics(metadata, message_thread_id).no_duplicates(),
        metadata.message_thread_id matches Some(current) ==> (current != message_thread_id
            ==> previous_topics(metadata, message_thread_id).contains(current)),
        forall|id: i32|
            metadata.previous_message_thread_ids.contains(id) ==> previous_topics(
                metadata,
                message_thread_id,
            ).contains(id),
{
    let before = metadata.previous_message_thread_ids;
    let after = previous_topics(metadata, message_thread_id);
    assert forall|id: i32| before.contains(id) implies after.contains(id) by {
        let k = choose|k: int| 0 <= k < before.len() && before[k] == id;
        assert(after[k] == id);
    }
    if let Some(current) = metadata.message_thread_id {
        if current != message_thread_id && !before.contains(current) {
            assert(after[before.len() as int] == current);
        }
    }
}

/// A transition never changes to which chat and under which key a thread is kept.
pub proof fn law_transition_keeps_identity(
    metadata: MetadataModel,
    binding: Option<BindingModel>,
    transition: ThreadTransition,
    now: Seq<char>,
)
    ensures
        outcome(metadata, binding, transition, now) matches Ok(result) ==> {
            &&& result.metadata.thread_key == metadata.thread_key
            &&& result.metadata.chat_id == metadata.chat_id
            &&& result.metadata.created_at == metadata.created_at
            &&& result.metadata.scope == metadata.scope
        },
{
}

/// What a transition writes: binding names the workspace and the session, with the permissions the
/// session was started with, and selecting names the session in the workspace that the binding
/// has. Both remember the session as used now, but selecting does so only in a workspace.
pub proof fn law_sessions_in_use_are_remembered(
    metadata: MetadataModel,
    binding: BindingModel,
    workspace_cwd: String,
    session_id: String,
    execution: SessionExecutionSnapshot,
    now: Seq<char>,
)
    ensures
        ({
            let result = outcome(
                metadata,
                Some(binding),
                ThreadTransition::BindWorkspace {
                    workspace_cwd,
                    codex_thread_id: session_id,
                    execution,
                },
                now,
            );
            &&& result is Ok
            &&& result->Ok_0.written is Some
            &&& result->Ok_0.written->0.workspace_cwd == Some(workspace_cwd@)
            &&& result->Ok_0.written->0.current_codex_thread_id == Some(session_id@)
            &&& result->Ok_0.written->0.current_execution_mode == execution.execution_mode
            &&& result->Ok_0.written->0.tui_active_codex_thread_id is None
            &&& result->Ok_0.written->0.updated_at == now
            &&& result->Ok_0.recent is Some
            &&& result->Ok_0.recent->0.session_id == session_id@
            &&& result->Ok_0.recent->0.updated_at == now
            &&& result->Ok_0.recent->0.execution_mode == execution.execution_mode
        }),
        ({
            let result = outcome(
                metadata,
                Some(binding),
                ThreadTransition::SelectSession { session_id },
                now,
            );
            &&& result is Ok
            &&& result->Ok_0.written is Some
            &&& result->Ok_0.written->0.workspace_cwd == binding.workspace_cwd
            &&& result->Ok_0.written->0.current_codex_thread_id == Some(session_id@)
            &&& result->Ok_0.written->0.tui_active_codex_thread_id is None
            &&& !result->Ok_0.written->0.tui_session_adoption_pending
            &&& result->Ok_0.recent is Some <==> binding.workspace_cwd is Some
            &&& result->Ok_0.recent matches Some(recent) ==> recent.session_id == session_id@
                && recent.updated_at == now && recent.execution_mode
                == binding.current_execution_mode
        }),
{
}

/// A transition is refused only where it needs a binding and there is none, or where a session is
/// marked broken and the binding names no workspace. Nothing else is ever refused.
pub proof fn law_transitions_need_a_binding(
    metadata: MetadataModel,
    binding: Option<BindingModel>,
    transition: ThreadTransition,
    now: Seq<char>,
)
    ensures
        transition is BindWorkspace || transition is Archive || transition is Restore ==> outcome(
            metadata,
            binding,
            transition,
            now,
        ) is Ok,
        transition is VerifySession || transition is SelectSession ==> (outcome(
            metadata,
            binding,
            transition,
            now,
        ) is Ok <==> binding is Some),
        transition is MarkBroken && binding is Some ==> (outcome(metadata, binding, transition, now)
            is Ok <==> binding->0.workspace_cwd is Some && !crate::text::is_blank(
            binding->0.workspace_cwd->0,
        )),
        binding is None && !(outcome(metadata, binding, transition, now) is Ok) ==> outcome(
            metadata,
            binding,
            transition,
            now,
        ) == Err::<OutcomeModel, TransitionError>(TransitionError::BindingMissing),
        binding is Some && !(outcome(metadata, binding, transition, now) is Ok) ==> outcome(
            metadata,
            binding,
            transition,
            now,
        ) == Err::<OutcomeModel, TransitionError>(TransitionError::WorkspaceMissing),
{
}

/// A thread that is archived is so since now, and one that is restored is active in the new topic
/// and under the new title. Marking a session broken says so, and why and since when, in the
/// metadata and in the binding.
pub proof fn law_transitions_take_effect(
    metadata: MetadataModel,
    binding: BindingModel,
    reason: Seq<char>,
    message_thread_id: i32,
    title: Seq<char>,
    now: Seq<char>,
)
    ensures
        archived(metadata, now).metadata.status == ThreadStatus::Archived,
        archived(metadata, now).metadata.archived_at == Some(now),
        restored(metadata, message_thread_id, title).metadata.status == ThreadStatus::Active,
        restored(metadata, message_thread_id, title).metadata.archived_at is None,
        restored(metadata, message_thread_id, title).metadata.message_thread_id == Some(
            message_thread_id,
        ),
        restored(metadata, message_thread_id, title).metadata.title == Some(title),
        broken(metadata, binding, reason, now).metadata.session_broken,
        broken(metadata, binding, reason, now).metadata.session_broken_reason == Some(reason),
        broken(metadata, binding, reason, now).metadata.session_broken_at == Some(now),
        broken(metadata, binding, reason, now).written is Some,
        broken(metadata, binding, reason, now).written->0.session_broken,
        broken(metadata, binding, reason, now).written->0.session_broken_reason == Some(reason),
        broken(metadata, binding, reason, now).written->0.current_codex_thread_id
            == binding.current_codex_thread_id,
        broken(metadata, binding, reason, now).metadata.last_codex_turn_at
            == metadata.last_codex_turn_at,
        verified(metadata, binding, now).written is Some,
        verified(metadata, binding, now).written->0.last_verified_at == Some(now),
        verified(metadata, binding, now).written->0.current_codex_thread_id
            == binding.current_codex_thread_id,
{
}

/// What stopped a transition is told apart.
pub proof fn law_transition_errors_are_told_apart(a: TransitionError, b: TransitionError)
    ensures
        a.message() == b.message() <==> a == b,
        a is BindingMissing ==> a.message() == "session binding is missing"@,
        a is WorkspaceMissing ==> a.message() == "session binding workspace is missing"@,
{
    reveal_strlit("session binding is missing");
    reveal_strlit("session binding workspace is missing");
    assert("session binding is missing"@.len() == 26);
    assert("session binding workspace is missing"@.len() == 36);
}

} // verus!
