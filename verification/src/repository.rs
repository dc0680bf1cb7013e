//! What is kept of a thread: its metadata, its binding to a workspace and a session, and
//! the transcript of its sessions.
use vstd::prelude::*;
use vstd::string::*;

use crate::collaboration_mode::CollaborationMode;
use crate::execution_mode::{ExecutionMode, SessionExecutionSnapshot};
use crate::text;

verus! {

broadcast use vstd::string::group_string_axioms;

/// Whether a thread is in use.
#[derive(Clone, Copy, Debug, PartialEq, Eq, Structural)]
pub enum ThreadStatus {
    Active,
    Archived,
}

/// What a thread is for: the control chat, or one workspace.
#[derive(Clone, Copy, Debug, PartialEq, Eq, Structural)]
pub enum ThreadScope {
    Main,
    Thread,
}

/// What becomes of input that arrives while a turn is running.
#[derive(Clone, Copy, Debug, PartialEq, Eq, Structural)]
pub enum RunningInputPolicy {
    Reject,
}

impl Default for RunningInputPolicy {
    fn default() -> (res: Self)
        ensures
            res == RunningInputPolicy::Reject,
    {
        RunningInputPolicy::Reject
    }
}

/// What is kept of a thread.
#[derive(Debug)]
pub struct ThreadMetadata {
    pub archived_at: Option<String>,
    pub chat_id: i64,
    pub created_at: String,
    pub last_codex_turn_at: Option<String>,
    pub message_thread_id: Option<i32>,
    pub previous_message_thread_ids: Vec<i32>,
    pub running_input_policy: RunningInputPolicy,
    pub scope: ThreadScope,
    pub session_broken: bool,
    pub session_broken_at: Option<String>,
    pub session_broken_reason: Option<String>,
    pub status: ThreadStatus,
    pub title: Option<String>,
    pub updated_at: String,
    pub thread_key: String,
}

/// The model of the metadata of a thread.
#[verifier::ext_equal]
pub struct MetadataModel {
    pub archived_at: Option<Seq<char>>,
    pub chat_id: i64,
    pub created_at: Seq<char>,
    pub last_codex_turn_at: Option<Seq<char>>,
    pub message_thread_id: Option<i32>,
    pub previous_message_thread_ids: Seq<i32>,
    pub running_input_policy: RunningInputPolicy,
    pub scope: ThreadScope,
    pub session_broken: bool,
    pub session_broken_at: Option<Seq<char>>,
    pub session_broken_reason: Option<Seq<char>>,
    pub status: ThreadStatus,
    pub title: Option<Seq<char>>,
    pub updated_at: Seq<char>,
    pub thread_key: Seq<char>,
}

impl View for ThreadMetadata {
    type V = MetadataModel;

    open spec fn view(&self) -> MetadataModel {
        MetadataModel {
            archived_at: text::opt_view(self.archived_at),
            chat_id: self.chat_id,
            created_at: self.created_at@,
            last_codex_turn_at: text::opt_view(self.last_codex_turn_at),
            message_thread_id: self.message_thread_id,
            previous_message_thread_ids: self.previous_message_thread_ids@,
            running_input_policy: self.running_input_policy,
            scope: self.scope,
            session_broken: self.session_broken,
            session_broken_at: text::opt_view(self.session_broken_at),
            session_broken_reason: text::opt_view(self.session_broken_reason),
            status: self.status,
            title: text::opt_view(self.title),
            updated_at: self.updated_at@,
            thread_key: self.thread_key@,
        }
    }
}

/// A copy of a list of numbers.
pub fn copy_ids(ids: &Vec<i32>) -> (res: Vec<i32>)
    ensures
        res@ == ids@,
{
    let mut res: Vec<i32> = Vec::new();
    let mut i: usize = 0;
    while i < ids.len()
        invariant
            i <= ids@.len(),
            res@ =~= ids@.take(i as int),
        decreases ids@.len() - i,
    {
        res.push(ids[i]);
        i += 1;
    }
    res
}

impl Clone for ThreadMetadata {
    fn clone(&self) -> (res: Self)
        ensures
            res@ == self@,
    {
        ThreadMetadata {
            archived_at: text::clone_opt(&self.archived_at),
            chat_id: self.chat_id,
            created_at: self.created_at.clone(),
            last_codex_turn_at: text::clone_opt(&self.last_codex_turn_at),
            message_thread_id: self.message_thread_id,
            previous_message_thread_ids: copy_ids(&self.previous_message_thread_ids),
            running_input_policy: self.running_input_policy,
            scope: self.scope,
            session_broken: self.session_broken,
            session_broken_at: text::clone_opt(&self.session_broken_at),
            session_broken_reason: text::clone_opt(&self.session_broken_reason),
            status: self.status,
            title: text::clone_opt(&self.title),
            updated_at: self.updated_at.clone(),
            thread_key: self.thread_key.clone(),
        }
    }
}

/// The binding of a thread to a workspace and to the session of it that is in use.
#[derive(Debug)]
pub struct SessionBinding {
    pub schema_version: u32,
    pub current_codex_thread_id: Option<String>,
    pub workspace_cwd: Option<String>,
    pub bound_at: Option<String>,
    pub initialized_at: Option<String>,
    pub last_verified_at: Option<String>,
    pub session_broken: bool,
    pub session_broken_at: Option<String>,
    pub session_broken_reason: Option<String>,
    pub tui_active_codex_thread_id: Option<String>,
    pub tui_session_adoption_pending: bool,
    pub tui_session_adoption_prompt_message_id: Option<i32>,
    pub current_execution_mode: Option<ExecutionMode>,
    pub current_approval_policy: Option<String>,
    pub current_sandbox_policy: Option<String>,
    pub current_collaboration_mode: Option<CollaborationMode>,
    pub updated_at: String,
}

/// The model of a binding.
#[verifier::ext_equal]
pub struct BindingModel {
    pub schema_version: u32,
    pub current_codex_thread_id: Option<Seq<char>>,
    pub workspace_cwd: Option<Seq<char>>,
    pub bound_at: Option<Seq<char>>,
    pub initialized_at: Option<Seq<char>>,
    pub last_verified_at: Option<Seq<char>>,
    pub session_broken: bool,
    pub session_broken_at: Option<Seq<char>>,
    pub session_broken_reason: Option<Seq<char>>,
    pub tui_active_codex_thread_id: Option<Seq<char>>,
    pub tui_session_adoption_pending: bool,
    pub tui_session_adoption_prompt_message_id: Option<i32>,
    pub current_execution_mode: Option<ExecutionMode>,
    pub current_approval_policy: Option<Seq<char>>,
    pub current_sandbox_policy: Option<Seq<char>>,
    pub current_collaboration_mode: Option<CollaborationMode>,
    pub updated_at: Seq<char>,
}

impl View for SessionBinding {
    type V = BindingModel;

    open spec fn view(&self) -> BindingModel {
        BindingModel {
            schema_version: self.schema_version,
            current_codex_thread_id: text::opt_view(self.current_codex_thread_id),
            workspace_cwd: text::opt_view(self.workspace_cwd),
            bound_at: text::opt_view(self.bound_at),
            initialized_at: text::opt_view(self.initialized_at),
            last_verified_at: text::opt_view(self.last_verified_at),
            session_broken: self.session_broken,
            session_broken_at: text::opt_view(self.session_broken_at),
            session_broken_reason: text::opt_view(self.session_broken_reason),
            tui_active_codex_thread_id: text::opt_view(self.tui_active_codex_thread_id),
            tui_session_adoption_pending: self.tui_session_adoption_pending,
            tui_session_adoption_prompt_message_id: self.tui_session_adoption_prompt_message_id,
            current_execution_mode: self.current_execution_mode,
            current_approval_policy: text::opt_view(self.current_approval_policy),
            current_sandbox_policy: text::opt_view(self.current_sandbox_policy),
            current_collaboration_mode: self.current_collaboration_mode,
            updated_at: self.updated_at@,
        }
    }
}

/// The model of a binding that may be absent.
pub open spec fn opt_binding(binding: Option<SessionBinding>) -> Option<BindingModel> {
    match binding {
        Some(binding) => Some(binding@),
        None => None,
    }
}

/// The model of a borrowed binding that may be absent.
pub open spec fn opt_binding_ref(binding: Option<&SessionBinding>) -> Option<BindingModel> {
    match binding {
        Some(binding) => Some(binding@),
        None => None,
    }
}

impl BindingModel {
    /// A binding that has just been made.
    pub open spec fn fresh(
        workspace_cwd: Option<Seq<char>>,
        session_id: Option<Seq<char>>,
        execution: SessionExecutionSnapshot,
    ) -> BindingModel {
        BindingModel {
            schema_version: 3,
            current_codex_thread_id: session_id,
            workspace_cwd,
            bound_at: None,
            initialized_at: None,
            last_verified_at: None,
            session_broken: false,
            session_broken_at: None,
            session_broken_reason: None,
            tui_active_codex_thread_id: None,
            tui_session_adoption_pending: false,
            tui_session_adoption_prompt_message_id: None,
            current_execution_mode: execution.execution_mode,
            current_approval_policy: text::opt_view(execution.approval_policy),
            current_sandbox_policy: text::opt_view(execution.sandbox_policy),
            current_collaboration_mode: None,
            updated_at: Seq::empty(),
        }
    }

    /// The binding after a change at the given time.
    pub open spec fn touched(self, now: Seq<char>) -> BindingModel {
        BindingModel { updated_at: now, ..self }
    }

    /// The binding without the mark that its session is broken.
    pub open spec fn mended(self) -> BindingModel {
        BindingModel {
            session_broken: false,
            session_broken_at: None,
            session_broken_reason: None,
            ..self
        }
    }

    /// The binding without a session of the terminal interface to adopt.
    pub open spec fn without_tui(self) -> BindingModel {
        BindingModel {
            tui_active_codex_thread_id: None,
            tui_session_adoption_pending: false,
            tui_session_adoption_prompt_message_id: None,
            ..self
        }
    }

    /// The binding after its session was found to work.
    pub open spec fn verified(self, now: Seq<char>) -> BindingModel {
        BindingModel { last_verified_at: Some(now), updated_at: now, ..self.mended() }
    }

    /// The binding after another session was selected.
    pub open spec fn selected_session(self, session_id: Seq<char>, now: Seq<char>) -> BindingModel {
        BindingModel {
            current_codex_thread_id: Some(session_id),
            updated_at: now,
            ..self.mended().without_tui()
        }
    }

    /// The binding after its session was found not to work.
    pub open spec fn broken(self, reason: Seq<char>, now: Seq<char>) -> BindingModel {
        BindingModel {
            session_broken: true,
            session_broken_at: Some(now),
            session_broken_reason: Some(reason),
            updated_at: now,
            ..self
        }
    }
}

impl Clone for SessionBinding {
    fn clone(&self) -> (res: Self)
        ensures
            res@ == self@,
    {
        SessionBinding {
            schema_version: self.schema_version,
            current_codex_thread_id: text::clone_opt(&self.current_codex_thread_id),
            workspace_cwd: text::clone_opt(&self.workspace_cwd),
            bound_at: text::clone_opt(&self.bound_at),
            initialized_at: text::clone_opt(&self.initialized_at),
            last_verified_at: text::clone_opt(&self.last_verified_at),
            session_broken: self.session_broken,
            session_broken_at: text::clone_opt(&self.session_broken_at),
            session_broken_reason: text::clone_opt(&self.session_broken_reason),
            tui_active_codex_thread_id: text::clone_opt(&self.tui_active_codex_thread_id),
            tui_session_adoption_pending: self.tui_session_adoption_pending,
            tui_session_adoption_prompt_message_id: self.tui_session_adoption_prompt_message_id,
            current_execution_mode: self.current_execution_mode,
            current_approval_policy: text::clone_opt(&self.current_approval_policy),
            current_sandbox_policy: text::clone_opt(&self.current_sandbox_policy),
            current_collaboration_mode: self.current_collaboration_mode,
            updated_at: self.updated_at.clone(),
        }
    }
}

impl SessionBinding {
    /// A binding that has just been made.
    pub fn fresh(
        workspace_cwd: Option<String>,
        current_codex_thread_id: Option<String>,
        execution: SessionExecutionSnapshot,
    ) -> (res: Self)
        ensures
            res@ == BindingModel::fresh(
                text::opt_view(workspace_cwd),
                text::opt_view(current_codex_thread_id),
                execution,
            ),
    {
        SessionBinding {
            schema_version: 3,
            current_codex_thread_id,
            workspace_cwd,
            bound_at: None,
            initialized_at: None,
            last_verified_at: None,
            session_broken: false,
            session_broken_at: None,
            session_broken_reason: None,
            tui_active_codex_thread_id: None,
            tui_session_adoption_pending: false,
            tui_session_adoption_prompt_message_id: None,
            current_execution_mode: execution.execution_mode,
            current_approval_policy: execution.approval_policy,
            current_sandbox_policy: execution.sandbox_policy,
            current_collaboration_mode: None,
            updated_at: String::new(),
        }
    }

    /// The binding after a change at the given time.
    pub fn touched(self, now: &str) -> (res: Self)
        ensures
            res@ == self@.touched(now@),
    {
        SessionBinding { updated_at: now.to_owned(), ..self }
    }

    /// The binding after its session was found to work.
    pub fn verified(self, now: &str) -> (res: Self)
        ensures
            res@ == self@.verified(now@),
    {
        SessionBinding {
            last_verified_at: Some(now.to_owned()),
            session_broken: false,
            session_broken_at: None,
            session_broken_reason: None,
            updated_at: now.to_owned(),
            ..self
        }
    }

    /// The binding after another session was selected.
    pub fn selected_session(self, session_id: String, now: &str) -> (res: Self)
        ensures
            res@ == self@.selected_session(session_id@, now@),
    {
        SessionBinding {
            current_codex_thread_id: Some(session_id),
            session_broken: false,
            session_broken_at: None,
            session_broken_reason: None,
            tui_active_codex_thread_id: None,
            tui_session_adoption_pending: false,
            tui_session_adoption_prompt_message_id: None,
            updated_at: now.to_owned(),
            ..self
        }
    }

    /// The binding after its session was found not to work.
    pub fn broken(self, reason: String, now: &str) -> (res: Self)
        ensures
            res@ == self@.broken(reason@, now@),
    {
        SessionBinding {
            session_broken: true,
            session_broken_at: Some(now.to_owned()),
            session_broken_reason: Some(reason),
            updated_at: now.to_owned(),
            ..self
        }
    }
}

/// A session that was in use in a workspace.
#[derive(Debug, Clone, PartialEq, Eq)]
pub struct RecentCodexSessionEntry {
    pub session_id: String,
    pub updated_at: String,
    pub execution_mode: Option<ExecutionMode>,
}

/// The model of a session that was in use.
pub struct RecentSessionModel {
    pub session_id: Seq<char>,
    pub updated_at: Seq<char>,
    pub execution_mode: Option<ExecutionMode>,
}

impl View for RecentCodexSessionEntry {
    type V = RecentSessionModel;

    open spec fn view(&self) -> RecentSessionModel {
        RecentSessionModel {
            session_id: self.session_id@,
            updated_at: self.updated_at@,
            execution_mode: self.execution_mode,
        }
    }
}

/// Where a message of the transcript comes from.
#[derive(Clone, Copy, Debug, PartialEq, Eq, Structural)]
pub enum TranscriptMirrorOrigin {
    Telegram,
    Tui,
    Local,
}

impl TranscriptMirrorOrigin {
    /// The origin in lower case.
    pub open spec fn name(self) -> Seq<char> {
        match self {
            TranscriptMirrorOrigin::Telegram => "telegram"@,
            TranscriptMirrorOrigin::Tui => "tui"@,
            TranscriptMirrorOrigin::Local => "local"@,
        }
    }

    /// The origin in lower case.
    pub fn as_str(self) -> (res: &'static str)
        ensures
            res@ == self.name(),
    {
        match self {
            TranscriptMirrorOrigin::Telegram => "telegram",
            TranscriptMirrorOrigin::Tui => "tui",
            TranscriptMirrorOrigin::Local => "local",
        }
    }
}

/// Who speaks in a message of the transcript.
#[derive(Clone, Copy, Debug, PartialEq, Eq, Structural)]
pub enum TranscriptMirrorRole {
    User,
    Assistant,
}

/// Whether a message of the transcript is final or shows progress.
#[derive(Clone, Copy, Debug, PartialEq, Eq, Structural)]
pub enum TranscriptMirrorDelivery {
    Final,
    Process,
}

/// What a message that shows progress is about.
#[derive(Clone, Copy, Debug, PartialEq, Eq, Structural)]
pub enum TranscriptMirrorPhase {
    Plan,
    Tool,
}

/// A message of the transcript.
#[derive(Debug, PartialEq, Eq)]
pub struct TranscriptMirrorEntry {
    pub timestamp: String,
    pub session_id: String,
    pub turn_id: Option<String>,
    pub origin: TranscriptMirrorOrigin,
    pub role: TranscriptMirrorRole,
    pub delivery: TranscriptMirrorDelivery,
    pub phase: Option<TranscriptMirrorPhase>,
    pub text: String,
}

/// The model of a message of the transcript.
#[verifier::ext_equal]
pub struct EntryModel {
    pub timestamp: Seq<char>,
    pub session_id: Seq<char>,
    pub turn_id: Option<Seq<char>>,
    pub origin: TranscriptMirrorOrigin,
    pub role: TranscriptMirrorRole,
    pub delivery: TranscriptMirrorDelivery,
    pub phase: Option<TranscriptMirrorPhase>,
    pub text: Seq<char>,
}

impl View for TranscriptMirrorEntry {
    type V = EntryModel;

    open spec fn view(&self) -> EntryModel {
        EntryModel {
            timestamp: self.timestamp@,
            session_id: self.session_id@,
            turn_id: text::opt_view(self.turn_id),
            origin: self.origin,
            role: self.role,
            delivery: self.delivery,
            phase: self.phase,
            text: self.text@,
        }
    }
}

impl Clone for TranscriptMirrorEntry {
    fn clone(&self) -> (res: Self)
        ensures
            res@ == self@,
    {
        TranscriptMirrorEntry {
            timestamp: self.timestamp.clone(),
            session_id: self.session_id.clone(),
            turn_id: text::clone_opt(&self.turn_id),
            origin: self.origin,
            role: self.role,
            delivery: self.delivery,
            phase: self.phase,
            text: self.text.clone(),
        }
    }
}

/// A thread as it is kept: its metadata, and where its files are.
#[derive(Debug)]
pub struct ThreadRecord {
    pub conversation_key: String,
    pub folder_name: String,
    pub folder_path: String,
    pub log_path: String,
    pub metadata_path: String,
    pub metadata: ThreadMetadata,
}

/// A fresh binding names the workspace, the session and the permissions that it was made with, and
/// nothing else: it is not broken, nothing waits for adoption and no mode was chosen.
pub proof fn law_fresh_bindings_are_clean(
    workspace_cwd: Option<Seq<char>>,
    session_id: Option<Seq<char>>,
    execution: SessionExecutionSnapshot,
)
    ensures
        ({
            let binding = BindingModel::fresh(workspace_cwd, session_id, execution);
            &&& binding.workspace_cwd == workspace_cwd
            &&& binding.current_codex_thread_id == session_id
            &&& binding.current_execution_mode == execution.execution_mode
            &&& binding.current_approval_policy == text::opt_view(execution.approval_policy)
            &&& binding.current_sandbox_policy == text::opt_view(execution.sandbox_policy)
            &&& !binding.session_broken && binding.session_broken_at is None
                && binding.session_broken_reason is None
            &&& binding.tui_active_codex_thread_id is None && !binding.tui_session_adoption_pending
                && binding.tui_session_adoption_prompt_message_id is None
            &&& binding.current_collaboration_mode is None
        }),
{
}

/// What is done to a binding leaves the rest of it alone. Marking it broken keeps its session, and
/// verifying it takes the mark off again. Selecting a session changes to that session, takes the
/// mark off and leaves nothing to adopt. Each of them notes when it was done.
pub proof fn law_bindings_keep_what_is_not_changed(
    binding: BindingModel,
    session_id: Seq<char>,
    reason: Seq<char>,
    now: Seq<char>,
)
    ensures
        binding.broken(reason, now).session_broken,
        binding.broken(reason, now).session_broken_reason == Some(reason),
        binding.broken(reason, now).session_broken_at == Some(now),
        binding.broken(reason, now).updated_at == now,
        binding.broken(reason, now).current_codex_thread_id == binding.current_codex_thread_id,
        binding.broken(reason, now).tui_active_codex_thread_id
            == binding.tui_active_codex_thread_id,
        binding.broken(reason, now).workspace_cwd == binding.workspace_cwd,
        binding.broken(reason, now).verified(now) == binding.verified(now),
        !binding.verified(now).session_broken,
        binding.verified(now).last_verified_at == Some(now),
        binding.verified(now).updated_at == now,
        binding.verified(now).current_codex_thread_id == binding.current_codex_thread_id,
        binding.verified(now).tui_active_codex_thread_id == binding.tui_active_codex_thread_id,
        binding.verified(now).workspace_cwd == binding.workspace_cwd,
        binding.selected_session(session_id, now).current_codex_thread_id == Some(session_id),
        binding.selected_session(session_id, now).workspace_cwd == binding.workspace_cwd,
        binding.selected_session(session_id, now).updated_at == now,
        !binding.selected_session(session_id, now).session_broken,
        binding.selected_session(session_id, now).session_broken_reason is None,
        binding.selected_session(session_id, now).tui_active_codex_thread_id is None,
        !binding.selected_session(session_id, now).tui_session_adoption_pending,
        binding.selected_session(session_id, now).tui_session_adoption_prompt_message_id is None,
        binding.selected_session(session_id, now).current_execution_mode
            == binding.current_execution_mode,
        binding.selected_session(session_id, now).current_collaboration_mode
            == binding.current_collaboration_mode,
        binding.touched(now) == (BindingModel { updated_at: now, ..binding }),
{
}

/// Origins are told apart by their names.
pub proof fn law_origins_have_names_of_their_own(a: TranscriptMirrorOrigin, b: TranscriptMirrorOrigin)
    ensures
        a.name() == b.name() <==> a == b,
        a is Telegram ==> a.name() == "telegram"@,
        a is Tui ==> a.name() == "tui"@,
        a is Local ==> a.name() == "local"@,
{
    reveal_strlit("telegram");
    reveal_strlit("tui");
    reveal_strlit("local");
    assert("telegram"@.len() == 8);
    assert("tui"@.len() == 3);
    assert("local"@.len() == 5);
}

} // verus!
