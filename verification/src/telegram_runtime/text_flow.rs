//! The prompts of a user, and the turns that answer them.
use vstd::prelude::*;
use vstd::string::*;

use crate::collaboration_mode::CollaborationMode;
use crate::execution_mode::{ExecutionMode, SessionExecutionSnapshot};
use crate::repository;
use crate::repository::{
    SessionBinding, TranscriptMirrorDelivery, TranscriptMirrorEntry, TranscriptMirrorOrigin,
    TranscriptMirrorRole,
};
use crate::telegram_runtime;
use crate::telegram_runtime::busy_copy;
use crate::telegram_runtime::deliveries::{PlanQuestion, TurnReply};
use crate::telegram_runtime::image_batches::BatchFacts;
use crate::telegram_runtime::interaction_bridge::AnswerOutcome;
use crate::telegram_runtime::thread_flow::is_nonfatal_collaboration_mode_error;
use crate::telegram_runtime::{FlowError, SessionId, ThreadFacts, TurnTarget};
use crate::text;
use crate::thread_state::{LifecycleStatus, ResolvedThreadState};
use crate::workspace_status::SessionCurrentStatus;

verus! {

broadcast use vstd::string::group_string_axioms;

/// What is put on record of a workspace in which a turn failed.
pub const FAILED_TURN_SUMMARY: &'static str = "text turn failed";

/// What is put on record when a turn is interrupted.
pub const INTERRUPT_LOG: &'static str = "Interrupted current reply via `/stop`.";

/// The entry of a transcript for what was said in Telegram.
pub fn telegram_entry(
    role: TranscriptMirrorRole,
    timestamp: String,
    session_id: String,
    turn_id: Option<String>,
    text: String,
) -> (res: TranscriptMirrorEntry)
    ensures
        res == (TranscriptMirrorEntry {
            timestamp,
            session_id,
            turn_id,
            origin: TranscriptMirrorOrigin::Telegram,
            role,
            delivery: TranscriptMirrorDelivery::Final,
            phase: None,
            text,
        }),
{
    TranscriptMirrorEntry {
        timestamp,
        session_id,
        turn_id,
        origin: TranscriptMirrorOrigin::Telegram,
        role,
        delivery: TranscriptMirrorDelivery::Final,
        phase: None,
        text,
    }
}

/// What a user is told whose prompt goes nowhere.
#[derive(Debug)]
pub enum PromptNotice {
    ControlChat,
    Archived,
    Unusable { state: ResolvedThreadState, session: Option<SessionBinding> },
    Busy { busy: SessionCurrentStatus },
}

impl PromptNotice {
    /// What the user is told.
    pub open spec fn body(self) -> Seq<char> {
        match self {
            PromptNotice::ControlChat => {
                "Main private chat is the control console. Use /add_workspace <absolute-path> first."@
            },
            PromptNotice::Archived => "This workspace is archived."@,
            PromptNotice::Unusable { state, session } => telegram_runtime::state_hint(
                state,
                repository::opt_binding(session),
            ),
            PromptNotice::Busy { busy } => busy_copy::busy_prompt_text(busy, false),
        }
    }

    /// What the user is told.
    pub fn to_text(&self) -> (res: String)
        ensures
            res@ == self.body(),
    {
        match self {
            PromptNotice::ControlChat => {
                "Main private chat is the control console. Use /add_workspace <absolute-path> first.".to_owned()
            },
            PromptNotice::Archived => "This workspace is archived.".to_owned(),
            PromptNotice::Unusable { state, session } => telegram_runtime::hint_text(*state, session),
            PromptNotice::Busy { busy } => busy_copy::busy_text_message(busy, false),
        }
    }
}

/// How far a prompt has come.
#[derive(Debug)]
pub enum PromptStage {
    LoadingRecord,
    Submitting,
    Routing,
    Preparing { busy: Option<SessionCurrentStatus>, mode: CollaborationMode, target: TurnTarget },
    ReadingBatch { mode: CollaborationMode, target: TurnTarget },
    LoggingForBatch { batch_id: String },
    Logging { mode: CollaborationMode, target: TurnTarget },
    Mirroring { mode: CollaborationMode, target: TurnTarget },
    Claiming { mode: CollaborationMode, target: TurnTarget },
    Committing { mode: CollaborationMode, target: TurnTarget },
    RecordingStart { mode: CollaborationMode, target: TurnTarget },
    Last,
    Finished,
}

/// What came of a step.
#[derive(Debug)]
pub enum PromptEvent {
    Done,
    /// What became of the text as an answer, if a question of a session was waiting for it.
    Submitted(Option<AnswerOutcome>),
    /// What is known of the thread, once the input was routed to its session.
    Thread(ThreadFacts),
    /// The batch of images of the thread, where there is one.
    Batch(Option<BatchFacts>),
    Failed(String),
}

/// What is to be done next.
#[derive(Debug)]
pub enum PromptStep {
    Reply { notice: PromptNotice },
    /// Find the thread.
    LoadRecord,
    /// Offer the text to the questions that wait for an answer.
    Submit,
    /// Go on with what became of the text as an answer.
    GoOnAsking { outcome: AnswerOutcome },
    /// Route the input to the session of the thread, and find out what is known of it then.
    Route,
    /// Make sure that the runtime of the workspace runs.
    PrepareRuntime { workspace: String },
    ReadBatch,
    LogPrompt,
    /// Have the images of the thread analysed, with the text as the prompt.
    AnalyzeBatch { batch_id: String },
    MirrorPrompt { session_id: SessionId },
    ClaimEcho { session_id: SessionId },
    CommitEcho,
    /// Put on record that a turn has started.
    RecordStart { target: TurnTarget },
    /// Start the turn that answers the prompt.
    StartTurn { mode: CollaborationMode, target: TurnTarget },
    Finish { outcome: Result<(), FlowError> },
}

/// A notice that a prompt ends with.
pub open spec fn prompt_told(notice: PromptNotice) -> (PromptStage, PromptStep) {
    (PromptStage::Last, PromptStep::Reply { notice })
}

fn tell_prompt(notice: PromptNotice) -> (res: (PromptStage, PromptStep))
    ensures
        res == prompt_told(notice),
{
    (PromptStage::Last, PromptStep::Reply { notice })
}

/// The first step of a prompt: the control chat takes none, and a message outside a thread is
/// refused.
pub open spec fn prompt_start(in_control_chat: bool, in_thread: bool) -> (PromptStage, PromptStep) {
    if in_control_chat {
        prompt_told(PromptNotice::ControlChat)
    } else if !in_thread {
        prompt_ended(Err(FlowError::MissingThreadId))
    } else {
        (PromptStage::LoadingRecord, PromptStep::LoadRecord)
    }
}

/// The first step of a prompt.
pub fn begin_prompt(in_control_chat: bool, in_thread: bool) -> (res: (PromptStage, PromptStep))
    ensures
        res == prompt_start(in_control_chat, in_thread),
{
    if in_control_chat {
        tell_prompt(PromptNotice::ControlChat)
    } else if !in_thread {
        end_prompt(Err(FlowError::MissingThreadId))
    } else {
        (PromptStage::LoadingRecord, PromptStep::LoadRecord)
    }
}

/// What follows from what is known of the thread: the turn is to continue its usable session.
pub open spec fn prompt_routed(facts: ThreadFacts) -> (PromptStage, PromptStep) {
    if facts.state.lifecycle_status == LifecycleStatus::Archived {
        prompt_told(PromptNotice::Archived)
    } else if facts.usable() is None {
        prompt_told(PromptNotice::Unusable { state: facts.state, session: facts.session })
    } else {
        match facts.target() {
            Some(target) => (
                PromptStage::Preparing {
                    busy: facts.busy,
                    mode: telegram_runtime::mode_of(repository::opt_binding(facts.session)),
                    target,
                },
                PromptStep::PrepareRuntime { workspace: target.workspace },
            ),
            None => prompt_ended(Err(FlowError::MissingWorkspace)),
        }
    }
}

fn on_prompt_routed(facts: ThreadFacts) -> (res: (PromptStage, PromptStep))
    ensures
        res == prompt_routed(facts),
{
    if facts.state.is_archived() {
        return tell_prompt(PromptNotice::Archived);
    }
    if !facts.is_usable() {
        return tell_prompt(
            PromptNotice::Unusable { state: facts.state, session: facts.session },
        );
    }
    let mode = match &facts.session {
        Some(session) => telegram_runtime::collaboration_mode_for_session(Some(session)),
        None => telegram_runtime::collaboration_mode_for_session(None),
    };
    match facts.turn_target() {
        Some(target) => {
            let workspace = target.workspace.clone();
            (
                PromptStage::Preparing { busy: facts.busy, mode, target },
                PromptStep::PrepareRuntime { workspace },
            )
        },
        None => end_prompt(Err(FlowError::MissingWorkspace)),
    }
}

/// What follows from the batch of the thread: images that wait are analysed with the prompt.
pub open spec fn prompt_of_batch(
    mode: CollaborationMode,
    target: TurnTarget,
    batch: Option<BatchFacts>,
) -> (PromptStage, PromptStep) {
    match batch {
        Some(batch) => if batch.images > 0 {
            (
                PromptStage::LoggingForBatch { batch_id: batch.batch_id },
                PromptStep::LogPrompt,
            )
        } else {
            (PromptStage::Logging { mode, target }, PromptStep::LogPrompt)
        },
        None => (PromptStage::Logging { mode, target }, PromptStep::LogPrompt),
    }
}

fn on_prompt_batch(
    mode: CollaborationMode,
    target: TurnTarget,
    batch: Option<BatchFacts>,
) -> (res: (PromptStage, PromptStep))
    ensures
        res == prompt_of_batch(mode, target, batch),
{
    match batch {
        Some(batch) => {
            if batch.images > 0 {
                (
                    PromptStage::LoggingForBatch { batch_id: batch.batch_id },
                    PromptStep::LogPrompt,
                )
            } else {
                (PromptStage::Logging { mode, target }, PromptStep::LogPrompt)
            }
        },
        None => (PromptStage::Logging { mode, target }, PromptStep::LogPrompt),
    }
}

/// The end of a prompt.
pub open spec fn prompt_ended(outcome: Result<(), FlowError>) -> (PromptStage, PromptStep) {
    (PromptStage::Finished, PromptStep::Finish { outcome })
}

fn end_prompt(outcome: Result<(), FlowError>) -> (res: (PromptStage, PromptStep))
    ensures
        res == prompt_ended(outcome),
{
    (PromptStage::Finished, PromptStep::Finish { outcome })
}

/// What follows from an event.
pub open spec fn prompt_next(stage: PromptStage, event: PromptEvent) -> (PromptStage, PromptStep) {
    match (stage, event) {
        (PromptStage::Finished, _) => prompt_ended(Err(FlowError::OutOfTurn)),
        (PromptStage::Committing { mode, target }, _) => (
            PromptStage::RecordingStart { mode, target: target },
            PromptStep::RecordStart { target },
        ),
        (_, PromptEvent::Failed(reason)) => prompt_ended(Err(FlowError::Outside(reason))),
        (PromptStage::LoadingRecord, PromptEvent::Done) => (
            PromptStage::Submitting,
            PromptStep::Submit,
        ),
        (PromptStage::Submitting, PromptEvent::Submitted(Some(outcome))) => (
            PromptStage::Last,
            PromptStep::GoOnAsking { outcome },
        ),
        (PromptStage::Submitting, PromptEvent::Submitted(None)) => (
            PromptStage::Routing,
            PromptStep::Route,
        ),
        (PromptStage::Routing, PromptEvent::Thread(facts)) => prompt_routed(facts),
        (PromptStage::Preparing { busy: Some(busy), .. }, PromptEvent::Done) => prompt_told(
            PromptNotice::Busy { busy },
        ),
        (PromptStage::Preparing { busy: None, mode, target }, PromptEvent::Done) => (
            PromptStage::ReadingBatch { mode, target },
            PromptStep::ReadBatch,
        ),
        (PromptStage::ReadingBatch { mode, target }, PromptEvent::Batch(batch)) => prompt_of_batch(
            mode,
            target,
            batch,
        ),
        (PromptStage::LoggingForBatch { batch_id }, PromptEvent::Done) => (
            PromptStage::Last,
            PromptStep::AnalyzeBatch { batch_id },
        ),
        (PromptStage::Logging { mode, target }, PromptEvent::Done) => (
            PromptStage::Mirroring { mode, target: target },
            PromptStep::MirrorPrompt { session_id: target.session_id },
        ),
        (PromptStage::Mirroring { mode, target }, PromptEvent::Done) => (
            PromptStage::Claiming { mode, target: target },
            PromptStep::ClaimEcho { session_id: target.session_id },
        ),
        (PromptStage::Claiming { mode, target }, PromptEvent::Done) => (
            PromptStage::Committing { mode, target },
            PromptStep::CommitEcho,
        ),
        (PromptStage::RecordingStart { mode, target }, PromptEvent::Done) => (
            PromptStage::Last,
            PromptStep::StartTurn { mode, target },
        ),
        (PromptStage::Last, PromptEvent::Done) => prompt_ended(Ok(())),
        _ => prompt_ended(Err(FlowError::OutOfTurn)),
    }
}

/// The next step of a prompt.
pub fn advance_prompt(stage: PromptStage, event: PromptEvent) -> (res: (PromptStage, PromptStep))
    ensures
        res == prompt_next(stage, event),
{
    match (stage, event) {
        (PromptStage::Finished, _) => end_prompt(Err(FlowError::OutOfTurn)),
        (PromptStage::Committing { mode, target }, _) => (
            PromptStage::RecordingStart { mode, target: target.copy() },
            PromptStep::RecordStart { target },
        ),
        (_, PromptEvent::Failed(reason)) => end_prompt(Err(FlowError::Outside(reason))),
        (PromptStage::LoadingRecord, PromptEvent::Done) => (
            PromptStage::Submitting,
            PromptStep::Submit,
        ),
        (PromptStage::Submitting, PromptEvent::Submitted(Some(outcome))) => (
            PromptStage::Last,
            PromptStep::GoOnAsking { outcome },
        ),
        (PromptStage::Submitting, PromptEvent::Submitted(None)) => (
            PromptStage::Routing,
            PromptStep::Route,
        ),
        (PromptStage::Routing, PromptEvent::Thread(facts)) => on_prompt_routed(facts),
        (PromptStage::Preparing { busy: Some(busy), .. }, PromptEvent::Done) => tell_prompt(
            PromptNotice::Busy { busy },
        ),
        (PromptStage::Preparing { busy: None, mode, target }, PromptEvent::Done) => (
            PromptStage::ReadingBatch { mode, target },
            PromptStep::ReadBatch,
        ),
        (PromptStage::ReadingBatch { mode, target }, PromptEvent::Batch(batch)) => on_prompt_batch(
            mode,
            target,
            batch,
        ),
        (PromptStage::LoggingForBatch { batch_id }, PromptEvent::Done) => (
            PromptStage::Last,
            PromptStep::AnalyzeBatch { batch_id },
        ),
        (PromptStage::Logging { mode, target }, PromptEvent::Done) => (
            PromptStage::Mirroring { mode, target: target.copy() },
            PromptStep::MirrorPrompt { session_id: target.session_id },
        ),
        (PromptStage::Mirroring { mode, target }, PromptEvent::Done) => (
            PromptStage::Claiming { mode, target: target.copy() },
            PromptStep::ClaimEcho { session_id: target.session_id },
        ),
        (PromptStage::Claiming { mode, target }, PromptEvent::Done) => (
            PromptStage::Committing { mode, target },
            PromptStep::CommitEcho,
        ),
        (PromptStage::RecordingStart { mode, target }, PromptEvent::Done) => (
            PromptStage::Last,
            PromptStep::StartTurn { mode, target },
        ),
        (PromptStage::Last, PromptEvent::Done) => end_prompt(Ok(())),
        _ => end_prompt(Err(FlowError::OutOfTurn)),
    }
}

/// How many steps a prompt can still take.
pub open spec fn prompt_steps_left(stage: PromptStage) -> nat {
    match stage {
        PromptStage::LoadingRecord => 11,
        PromptStage::Submitting => 10,
        PromptStage::Routing => 9,
        PromptStage::Preparing { .. } => 8,
        PromptStage::ReadingBatch { .. } => 7,
        PromptStage::LoggingForBatch { .. } => 2,
        PromptStage::Logging { .. } => 6,
        PromptStage::Mirroring { .. } => 5,
        PromptStage::Claiming { .. } => 4,
        PromptStage::Committing { .. } => 3,
        PromptStage::RecordingStart { .. } => 2,
        PromptStage::Last => 1,
        PromptStage::Finished => 0,
    }
}

/// Whatever comes of its steps, a prompt ends.
pub proof fn law_prompt_ends(stage: PromptStage, event: PromptEvent)
    ensures
        prompt_next(stage, event).1 is Finish <==> prompt_next(stage, event).0 is Finished,
        stage !is Finished ==> prompt_steps_left(prompt_next(stage, event).0) < prompt_steps_left(stage),
        stage is Finished ==> prompt_next(stage, event).0 is Finished,
{
}

/// A turn starts only for a thread that is not archived, whose session is usable, and that is not
/// busy, and only if no question took the prompt and no image waits for it.
pub proof fn law_turns_start_in_idle_threads(stage: PromptStage, event: PromptEvent)
    ensures
        prompt_next(stage, event).1 is StartTurn ==> stage is RecordingStart,
        prompt_next(stage, event).0 is RecordingStart ==> stage is Committing,
        prompt_next(stage, event).0 is Committing ==> stage is Claiming,
        prompt_next(stage, event).0 is Claiming ==> stage is Mirroring,
        prompt_next(stage, event).0 is Mirroring ==> stage is Logging,
        prompt_next(stage, event).0 is Logging ==> stage is ReadingBatch && (
        event matches PromptEvent::Batch(batch) && (batch is None || batch->0.images == 0)),
        prompt_next(stage, event).0 is ReadingBatch ==> (stage matches PromptStage::Preparing {
            busy,
            ..
        } && busy is None),
        prompt_next(stage, event).0 is Preparing ==> stage is Routing && (
        event matches PromptEvent::Thread(facts) && facts.state.lifecycle_status
            != LifecycleStatus::Archived && facts.usable() is Some),
        prompt_next(stage, event).0 is Routing ==> stage is Submitting && (
        event matches PromptEvent::Submitted(outcome) && outcome is None),
{
}

/// What the turn of a prompt is to continue, once it is known.
pub open spec fn prompt_target(stage: PromptStage) -> Option<TurnTarget> {
    match stage {
        PromptStage::Preparing { target, .. } => Some(target),
        PromptStage::ReadingBatch { target, .. } => Some(target),
        PromptStage::Logging { target, .. } => Some(target),
        PromptStage::Mirroring { target, .. } => Some(target),
        PromptStage::Claiming { target, .. } => Some(target),
        PromptStage::Committing { target, .. } => Some(target),
        PromptStage::RecordingStart { target, .. } => Some(target),
        _ => None,
    }
}

/// The mode of the turn of a prompt, once it is known.
pub open spec fn prompt_mode(stage: PromptStage) -> Option<CollaborationMode> {
    match stage {
        PromptStage::Preparing { mode, .. } => Some(mode),
        PromptStage::ReadingBatch { mode, .. } => Some(mode),
        PromptStage::Logging { mode, .. } => Some(mode),
        PromptStage::Mirroring { mode, .. } => Some(mode),
        PromptStage::Claiming { mode, .. } => Some(mode),
        PromptStage::Committing { mode, .. } => Some(mode),
        PromptStage::RecordingStart { mode, .. } => Some(mode),
        _ => None,
    }
}

/// The turn of a prompt continues the usable session of the thread that the prompt was routed to,
/// in the workspace and the mode of its binding.
pub proof fn law_prompts_go_to_the_usable_session(facts: ThreadFacts)
    ensures
        prompt_next(PromptStage::Routing, PromptEvent::Thread(facts)).0
            matches PromptStage::Preparing { mode, target, .. } ==> facts.usable() == Some(
            target.session_id@,
        ) && facts.session->0.workspace_cwd == Some(target.workspace) && mode
            == telegram_runtime::mode_of(repository::opt_binding(facts.session)),
{
}

/// A prompt keeps to its session once it is routed: the entry of the transcript, the claim, the
/// record and the turn are about that same session.
pub proof fn law_prompts_keep_their_session(stage: PromptStage, event: PromptEvent)
    ensures
        prompt_target(prompt_next(stage, event).0) is Some ==> stage is Routing || (prompt_target(
            prompt_next(stage, event).0,
        ) == prompt_target(stage) && prompt_mode(prompt_next(stage, event).0) == prompt_mode(
            stage,
        )),
        prompt_next(stage, event).1 matches PromptStep::MirrorPrompt { session_id }
            ==> prompt_target(stage)->0.session_id == session_id,
        prompt_next(stage, event).1 matches PromptStep::ClaimEcho { session_id } ==> prompt_target(
            stage,
        )->0.session_id == session_id,
        prompt_next(stage, event).1 matches PromptStep::RecordStart { target } ==> prompt_target(
            stage,
        ) == Some(target),
        prompt_next(stage, event).1 matches PromptStep::StartTurn { mode, target }
            ==> prompt_target(stage) == Some(target) && prompt_mode(stage) == Some(mode),
{
}

/// The stage of a prompt behind events, one after the other.
pub open spec fn prompt_after(stage: PromptStage, events: Seq<PromptEvent>) -> PromptStage
    decreases events.len(),
{
    if events.len() == 0 {
        stage
    } else {
        prompt_next(prompt_after(stage, events.drop_last()), events.last()).0
    }
}

/// Whatever happens once a prompt is routed, a turn that it starts runs in the mode that the
/// binding of the thread names; where the binding names none, and where there is no binding, it
/// runs in default mode.
pub proof fn law_prompts_run_in_the_mode_of_their_binding(
    facts: ThreadFacts,
    events: Seq<PromptEvent>,
    event: PromptEvent,
)
    ensures
        prompt_next(
            prompt_after(prompt_next(PromptStage::Routing, PromptEvent::Thread(facts)).0, events),
            event,
        ).1 matches PromptStep::StartTurn { mode, .. } ==> {
            &&& facts.session is None ==> mode == CollaborationMode::Default
            &&& facts.session matches Some(binding) ==> {
                &&& binding.current_collaboration_mode is None ==> mode
                    == CollaborationMode::Default
                &&& binding.current_collaboration_mode matches Some(chosen) ==> mode == chosen
            }
        },
{
    lemma_mode_kept(facts, events);
    law_prompts_keep_their_session(
        prompt_after(prompt_next(PromptStage::Routing, PromptEvent::Thread(facts)).0, events),
        event,
    );
}

/// A prompt that was routed is not routed again, and keeps the mode of the binding.
proof fn lemma_mode_kept(facts: ThreadFacts, events: Seq<PromptEvent>)
    ensures
        ({
            let stage = prompt_after(
                prompt_next(PromptStage::Routing, PromptEvent::Thread(facts)).0,
                events,
            );
            &&& prompt_steps_left(stage) <= 8
            &&& prompt_mode(stage) matches Some(mode) ==> mode == match facts.session {
                Some(binding) => match binding.current_collaboration_mode {
                    Some(chosen) => chosen,
                    None => CollaborationMode::Default,
                },
                None => CollaborationMode::Default,
            }
        }),
    decreases events.len(),
{
    if events.len() > 0 {
        let before = prompt_after(
            prompt_next(PromptStage::Routing, PromptEvent::Thread(facts)).0,
            events.drop_last(),
        );
        lemma_mode_kept(facts, events.drop_last());
        law_prompt_ends(before, events.last());
        law_prompts_keep_their_session(before, events.last());
    }
}

/// A prompt to a thread that is neither archived nor busy, whose binding is healthy and names a
/// session and a workspace, and for which no image waits, starts a turn of that session in that
/// workspace, if every step on the way is done.
pub proof fn law_prompts_start_their_turn(facts: ThreadFacts, batch: Option<BatchFacts>)
    requires
        facts.state.lifecycle_status == LifecycleStatus::Active,
        facts.state.binding_status == crate::thread_state::BindingStatus::Healthy,
        facts.busy is None,
        facts.session is Some,
        facts.session->0.workspace_cwd is Some,
        facts.session->0.current_codex_thread_id is Some,
        !text::is_blank(facts.session->0.current_codex_thread_id->0@),
        batch is None || batch->0.images == 0,
    ensures
        ({
            let routed = prompt_next(PromptStage::Routing, PromptEvent::Thread(facts));
            let prepared = prompt_next(routed.0, PromptEvent::Done);
            let read = prompt_next(prepared.0, PromptEvent::Batch(batch));
            let logged = prompt_next(read.0, PromptEvent::Done);
            let mirrored = prompt_next(logged.0, PromptEvent::Done);
            let claimed = prompt_next(mirrored.0, PromptEvent::Done);
            let committed = prompt_next(claimed.0, PromptEvent::Done);
            let started = prompt_next(committed.0, PromptEvent::Done);
            &&& routed.1 == (PromptStep::PrepareRuntime {
                workspace: facts.session->0.workspace_cwd->0,
            })
            &&& prepared.1 is ReadBatch
            &&& read.1 is LogPrompt
            &&& logged.1 is MirrorPrompt
            &&& mirrored.1 is ClaimEcho
            &&& claimed.1 is CommitEcho
            &&& committed.1 is RecordStart
            &&& started.1 matches PromptStep::StartTurn { mode, target } && target.session_id@
                == text::trimmed(facts.session->0.current_codex_thread_id->0@) && Some(
                target.workspace,
            ) == facts.session->0.workspace_cwd && mode
                == match facts.session->0.current_collaboration_mode {
                Some(chosen) => chosen,
                None => CollaborationMode::Default,
            }
        }),
{
}

/// Why a turn came to nothing.
#[derive(Debug, Clone, PartialEq, Eq)]
pub enum TurnError {
    /// A step outside failed, for the reason given.
    Outside(String),
    WorkspaceUnavailable,
    ModeUnknown,
    OutboxStuck,
    /// Something was reported that was not asked for.
    OutOfTurn,
}

impl TurnError {
    /// The reason, in words.
    pub open spec fn message(self, workspace: Seq<char>, thread_key: Seq<char>) -> Seq<char> {
        match self {
            TurnError::Outside(reason) => reason@,
            TurnError::WorkspaceUnavailable => "failed to resolve shared workspace runtime: "@
                + workspace,
            TurnError::ModeUnknown => "failed to resolve workspace execution mode: "@ + workspace,
            TurnError::OutboxStuck => {
                "failed to dispatch workspace telegram outbox for thread "@ + thread_key
            },
            TurnError::OutOfTurn => "a step was reported that was not asked for"@,
        }
    }

    /// The reason, in words.
    pub fn to_text(&self, workspace: &str, thread_key: &str) -> (res: String)
        ensures
            res@ == self.message(workspace@, thread_key@),
    {
        match self {
            TurnError::Outside(reason) => reason.clone(),
            TurnError::WorkspaceUnavailable => text::concat2(
                "failed to resolve shared workspace runtime: ",
                workspace,
            ),
            TurnError::ModeUnknown => text::concat2(
                "failed to resolve workspace execution mode: ",
                workspace,
            ),
            TurnError::OutboxStuck => text::concat2(
                "failed to dispatch workspace telegram outbox for thread ",
                thread_key,
            ),
            TurnError::OutOfTurn => "a step was reported that was not asked for".to_owned(),
        }
    }
}

/// What is said of a turn that failed.
pub open spec fn turn_failure_of(session_id: Seq<char>, workspace: Seq<char>) -> Seq<char> {
    "failed to run codex turn for thread "@ + session_id + " in "@ + workspace
}

/// What is said of a turn that failed.
pub fn turn_failure(session_id: &str, workspace: &str) -> (res: String)
    ensures
        res@ == turn_failure_of(session_id@, workspace@),
{
    text::concat4("failed to run codex turn for thread ", session_id, " in ", workspace)
}

/// What is put on record about a turn that failed.
pub fn turn_failure_log(reason: &str) -> (res: String)
    ensures
        res@ == "Codex turn failed: "@ + reason@,
{
    text::concat2("Codex turn failed: ", reason)
}

/// What a user is told whose turn failed in the background.
pub fn turn_failure_warning(reason: &str) -> (res: String)
    ensures
        res@ == "Request failed: "@ + reason@,
{
    text::concat2("Request failed: ", reason)
}

/// What a user is told whose session is not to be had.
#[derive(Debug)]
pub enum TurnWarning {
    /// The mode is not to be had, as the reason says.
    ModeUnavailable { reason: String },
    SessionUnavailable,
}

impl TurnWarning {
    /// What the user is told.
    pub fn to_text(&self) -> (res: String)
        ensures
            res@ == match *self {
                TurnWarning::ModeUnavailable { reason } => reason@,
                TurnWarning::SessionUnavailable => {
                    "Codex session is unavailable. Use /repair_session_binding to retry or /start_fresh_session to start a fresh one."@
                },
            },
    {
        match self {
            TurnWarning::ModeUnavailable { reason } => reason.clone(),
            TurnWarning::SessionUnavailable => {
                "Codex session is unavailable. Use /repair_session_binding to retry or /start_fresh_session to start a fresh one.".to_owned()
            },
        }
    }
}

/// How a turn ended, with the permissions that it reported to have run with.
#[derive(Debug)]
pub enum TurnOutcome {
    Interrupted { turn_id: Option<String>, execution: SessionExecutionSnapshot },
    /// The turn ended, with the reply that is to be seen, if there is one.
    Ended {
        turn_id: Option<String>,
        execution: SessionExecutionSnapshot,
        reply: Option<String>,
        has_plan: bool,
    },
    /// The turn failed; it does no harm if only its mode was not to be had.
    Failed { reason: String, harmless: bool },
}

/// How far a turn has come.
#[derive(Debug)]
pub enum TurnStage {
    OpeningWorkspace { mode: CollaborationMode, target: TurnTarget },
    ReadingMode { mode: CollaborationMode, target: TurnTarget },
    Running { mode: CollaborationMode, target: TurnTarget },
    Stopping { mode: CollaborationMode, target: TurnTarget, outcome: TurnOutcome },
    // A turn that was interrupted.
    RecordingInterrupt { execution: SessionExecutionSnapshot },
    VerifyingInterrupted { execution: SessionExecutionSnapshot },
    UpdatingInterrupted,
    // A turn that ended.
    RecordingEnd {
        session_id: SessionId,
        execution: SessionExecutionSnapshot,
        reply: Option<TurnReply>,
        plan: Option<PlanQuestion>,
    },
    Verifying {
        session_id: SessionId,
        execution: SessionExecutionSnapshot,
        reply: Option<TurnReply>,
        plan: Option<PlanQuestion>,
    },
    Updating { session_id: SessionId, reply: Option<TurnReply>, plan: Option<PlanQuestion> },
    LoggingReply { session_id: SessionId, reply: TurnReply, plan: Option<PlanQuestion> },
    Mirroring { session_id: SessionId, reply: TurnReply, plan: Option<PlanQuestion> },
    Claiming { session_id: SessionId, reply: TurnReply, plan: Option<PlanQuestion> },
    Completing {
        session_id: SessionId,
        reply: String,
        plan: Option<PlanQuestion>,
        claimed: bool,
    },
    Sending { session_id: SessionId, plan: Option<PlanQuestion> },
    GivingUp { reason: String },
    Committing { session_id: SessionId, plan: Option<PlanQuestion> },
    ClaimingPlan,
    AskingForPlan,
    CommittingPlan,
    Dispatching,
    // A turn that failed.
    RecordingFailure { reason: String, harmless: bool },
    Breaking { reason: String },
    LoggingFailure,
    Warning,
    Retitling,
    Last,
    Finished,
}

/// What came of a step.
#[derive(Debug)]
pub enum TurnEvent {
    Done,
    /// The execution mode of the workspace.
    Mode(ExecutionMode),
    Ran(TurnOutcome),
    /// Whether the delivery is this one's to make.
    Claimed { claimed: bool },
    /// The preview was completed, or could not be.
    Completed { finalized: bool },
    Failed(String),
}

/// What is to be done next.
#[derive(Debug)]
pub enum TurnStep {
    OpenWorkspace { workspace: String },
    /// Read the execution mode of the workspace.
    ReadMode { workspace: String },
    Run { mode: CollaborationMode, execution: ExecutionMode, target: TurnTarget },
    StopHeartbeats,
    /// Put on record that the turn was interrupted.
    RecordInterrupt { target: TurnTarget, turn_id: Option<String> },
    RecordEnd { target: TurnTarget, reply: Option<String> },
    MarkVerified,
    /// Keep with the session which permissions the turn ran with.
    UpdateExecution { execution: SessionExecutionSnapshot },
    LogInterrupt,
    LogReply { reply: String },
    MirrorReply { session_id: SessionId, reply: TurnReply },
    ClaimReply { session_id: SessionId, reply: TurnReply },
    CompletePreview { reply: String },
    SendReply { reply: String },
    FailReply { reason: String },
    CommitReply { preview_completed: bool },
    ClaimPlanPrompt { session_id: SessionId, question: PlanQuestion },
    SendPlanPrompt,
    CommitPlanPrompt,
    DispatchOutbox,
    RecordFailure { target: TurnTarget },
    MarkBroken { reason: String },
    LogFailure { reason: String },
    Warn { warning: TurnWarning },
    Retitle,
    Finish { outcome: Result<(), TurnError> },
}

/// What comes of a turn that could not be run. Whether it does no harm is seen from what is said of
/// the turn, not from the error behind it: it does none where that begins with the words by which
/// errors say that a mode is not to be had.
pub fn failed_turn(session_id: &str, workspace: &str, unavailable_prefix: &str) -> (res: TurnOutcome)
    ensures
        res matches TurnOutcome::Failed { reason, harmless } && reason@ == turn_failure_of(
            session_id@,
            workspace@,
        ) && harmless == unavailable_prefix@.is_prefix_of(reason@),
{
    let reason = turn_failure(session_id, workspace);
    let harmless = is_nonfatal_collaboration_mode_error(reason.as_str(), unavailable_prefix);
    TurnOutcome::Failed { reason, harmless }
}

/// The first step of a turn that continues a session.
pub fn begin_turn(mode: CollaborationMode, target: TurnTarget) -> (res: (TurnStage, TurnStep))
    ensures
        res == (
            TurnStage::OpeningWorkspace { mode, target },
            TurnStep::OpenWorkspace { workspace: target.workspace },
        ),
{
    let workspace = target.workspace.clone();
    (TurnStage::OpeningWorkspace { mode, target }, TurnStep::OpenWorkspace { workspace })
}

/// The reply of a turn, where it left one.
pub open spec fn reply_of(turn_id: Option<String>, reply: Option<String>) -> Option<TurnReply> {
    match reply {
        Some(text) => Some(TurnReply { turn_id, text }),
        None => None,
    }
}

/// The question about the plan of a turn, where there is one to ask: in plan mode, about a plan.
pub open spec fn plan_of(
    mode: CollaborationMode,
    turn_id: Option<String>,
    reply: Option<String>,
    has_plan: bool,
) -> Option<PlanQuestion> {
    if mode == CollaborationMode::Plan && has_plan {
        Some(PlanQuestion { turn_id, reply })
    } else {
        None
    }
}

/// What follows from how the turn ended: a plan is asked about only in plan mode.
pub open spec fn turn_stopped(
    mode: CollaborationMode,
    target: TurnTarget,
    outcome: TurnOutcome,
) -> (TurnStage, TurnStep) {
    match outcome {
        TurnOutcome::Interrupted { turn_id, execution } => (
            TurnStage::RecordingInterrupt { execution },
            TurnStep::RecordInterrupt { target, turn_id },
        ),
        TurnOutcome::Ended { turn_id, execution, reply, has_plan } => (
            TurnStage::RecordingEnd {
                session_id: target.session_id,
                execution,
                reply: reply_of(turn_id, reply),
                plan: plan_of(mode, turn_id, reply, has_plan),
            },
            TurnStep::RecordEnd { target, reply },
        ),
        TurnOutcome::Failed { reason, harmless } => (
            TurnStage::RecordingFailure { reason, harmless },
            TurnStep::RecordFailure { target },
        ),
    }
}

fn on_turn_stopped(
    mode: CollaborationMode,
    target: TurnTarget,
    outcome: TurnOutcome,
) -> (res: (TurnStage, TurnStep))
    ensures
        res == turn_stopped(mode, target, outcome),
{
    match outcome {
        TurnOutcome::Interrupted { turn_id, execution } => (
            TurnStage::RecordingInterrupt { execution },
            TurnStep::RecordInterrupt { target, turn_id },
        ),
        TurnOutcome::Ended { turn_id, execution, reply, has_plan } => {
            let plan = if mode == CollaborationMode::Plan && has_plan {
                Some(
                    PlanQuestion {
                        turn_id: text::clone_opt(&turn_id),
                        reply: text::clone_opt(&reply),
                    },
                )
            } else {
                None
            };
            let left = match &reply {
                Some(left) => Some(TurnReply { turn_id, text: left.clone() }),
                None => None,
            };
            let session_id = target.session_id.copy();
            (
                TurnStage::RecordingEnd { session_id, execution, reply: left, plan },
                TurnStep::RecordEnd { target, reply },
            )
        },
        TurnOutcome::Failed { reason, harmless } => (
            TurnStage::RecordingFailure { reason, harmless },
            TurnStep::RecordFailure { target },
        ),
    }
}

/// What follows once the reply is dealt with.
pub open spec fn turn_replied(session_id: SessionId, plan: Option<PlanQuestion>) -> (
    TurnStage,
    TurnStep,
) {
    match plan {
        Some(question) => (
            TurnStage::ClaimingPlan,
            TurnStep::ClaimPlanPrompt { session_id, question },
        ),
        None => (TurnStage::Dispatching, TurnStep::DispatchOutbox),
    }
}

fn on_turn_replied(session_id: SessionId, plan: Option<PlanQuestion>) -> (res: (
    TurnStage,
    TurnStep,
))
    ensures
        res == turn_replied(session_id, plan),
{
    match plan {
        Some(question) => (
            TurnStage::ClaimingPlan,
            TurnStep::ClaimPlanPrompt { session_id, question },
        ),
        None => (TurnStage::Dispatching, TurnStep::DispatchOutbox),
    }
}

/// What follows once the preview was to be completed: a reply that is this turn's to deliver is
/// sent, unless the preview shows it.
pub open spec fn turn_completed(
    session_id: SessionId,
    reply: String,
    plan: Option<PlanQuestion>,
    claimed: bool,
    finalized: bool,
) -> (TurnStage, TurnStep) {
    if !claimed {
        turn_replied(session_id, plan)
    } else if finalized {
        (
            TurnStage::Committing { session_id, plan },
            TurnStep::CommitReply { preview_completed: true },
        )
    } else {
        (TurnStage::Sending { session_id, plan }, TurnStep::SendReply { reply })
    }
}

fn on_turn_completed(
    session_id: SessionId,
    reply: String,
    plan: Option<PlanQuestion>,
    claimed: bool,
    finalized: bool,
) -> (res: (TurnStage, TurnStep))
    ensures
        res == turn_completed(session_id, reply, plan, claimed, finalized),
{
    if !claimed {
        on_turn_replied(session_id, plan)
    } else if finalized {
        (
            TurnStage::Committing { session_id, plan },
            TurnStep::CommitReply { preview_completed: true },
        )
    } else {
        (TurnStage::Sending { session_id, plan }, TurnStep::SendReply { reply })
    }
}

/// The end of a turn.
pub open spec fn turn_ended(outcome: Result<(), TurnError>) -> (TurnStage, TurnStep) {
    (TurnStage::Finished, TurnStep::Finish { outcome })
}

fn end_turn(outcome: Result<(), TurnError>) -> (res: (TurnStage, TurnStep))
    ensures
        res == turn_ended(outcome),
{
    (TurnStage::Finished, TurnStep::Finish { outcome })
}

/// What follows from an event.
pub open spec fn turn_next(stage: TurnStage, event: TurnEvent) -> (TurnStage, TurnStep) {
    match (stage, event) {
        (TurnStage::Finished, _) => turn_ended(Err(TurnError::OutOfTurn)),
        (TurnStage::OpeningWorkspace { .. }, TurnEvent::Failed(_)) => turn_ended(
            Err(TurnError::WorkspaceUnavailable),
        ),
        (TurnStage::ReadingMode { .. }, TurnEvent::Failed(_)) => turn_ended(
            Err(TurnError::ModeUnknown),
        ),
        (TurnStage::Sending { .. }, TurnEvent::Failed(reason)) => (
            TurnStage::GivingUp { reason: reason },
            TurnStep::FailReply { reason },
        ),
        (TurnStage::GivingUp { reason }, _) => turn_ended(Err(TurnError::Outside(reason))),
        (TurnStage::Committing { session_id, plan }, _) => turn_replied(session_id, plan),
        (TurnStage::CommittingPlan, _) => (TurnStage::Dispatching, TurnStep::DispatchOutbox),
        (TurnStage::Dispatching, TurnEvent::Failed(_)) => turn_ended(Err(TurnError::OutboxStuck)),
        (TurnStage::RecordingFailure { reason, harmless }, _) => if harmless {
            (TurnStage::Last, TurnStep::Warn { warning: TurnWarning::ModeUnavailable { reason } })
        } else {
            (TurnStage::Breaking { reason: reason }, TurnStep::MarkBroken { reason })
        },
        (TurnStage::Retitling, _) => turn_ended(Ok(())),
        (_, TurnEvent::Failed(reason)) => turn_ended(Err(TurnError::Outside(reason))),
        (TurnStage::OpeningWorkspace { mode, target }, TurnEvent::Done) => (
            TurnStage::ReadingMode { mode, target: target },
            TurnStep::ReadMode { workspace: target.workspace },
        ),
        (TurnStage::ReadingMode { mode, target }, TurnEvent::Mode(execution)) => (
            TurnStage::Running { mode, target: target },
            TurnStep::Run { mode, execution, target },
        ),
        (TurnStage::Running { mode, target }, TurnEvent::Ran(outcome)) => (
            TurnStage::Stopping { mode, target, outcome },
            TurnStep::StopHeartbeats,
        ),
        (TurnStage::Stopping { mode, target, outcome }, TurnEvent::Done) => turn_stopped(
            mode,
            target,
            outcome,
        ),
        (TurnStage::RecordingInterrupt { execution }, TurnEvent::Done) => (
            TurnStage::VerifyingInterrupted { execution },
            TurnStep::MarkVerified,
        ),
        (TurnStage::VerifyingInterrupted { execution }, TurnEvent::Done) => (
            TurnStage::UpdatingInterrupted,
            TurnStep::UpdateExecution { execution },
        ),
        (TurnStage::UpdatingInterrupted, TurnEvent::Done) => (
            TurnStage::Last,
            TurnStep::LogInterrupt,
        ),
        (TurnStage::RecordingEnd { session_id, execution, reply, plan }, TurnEvent::Done) => (
            TurnStage::Verifying { session_id, execution, reply, plan },
            TurnStep::MarkVerified,
        ),
        (TurnStage::Verifying { session_id, execution, reply, plan }, TurnEvent::Done) => (
            TurnStage::Updating { session_id, reply, plan },
            TurnStep::UpdateExecution { execution },
        ),
        (TurnStage::Updating { session_id, reply: Some(reply), plan }, TurnEvent::Done) => (
            TurnStage::LoggingReply { session_id, reply: reply, plan },
            TurnStep::LogReply { reply: reply.text },
        ),
        (TurnStage::Updating { session_id, reply: None, plan }, TurnEvent::Done) => turn_replied(
            session_id,
            plan,
        ),
        (TurnStage::LoggingReply { session_id, reply, plan }, TurnEvent::Done) => (
            TurnStage::Mirroring { session_id: session_id, reply: reply, plan },
            TurnStep::MirrorReply { session_id, reply },
        ),
        (TurnStage::Mirroring { session_id, reply, plan }, TurnEvent::Done) => (
            TurnStage::Claiming { session_id: session_id, reply: reply, plan },
            TurnStep::ClaimReply { session_id, reply },
        ),
        (TurnStage::Claiming { session_id, reply, plan }, TurnEvent::Claimed { claimed }) => (
            TurnStage::Completing { session_id, reply: reply.text, plan, claimed },
            TurnStep::CompletePreview { reply: reply.text },
        ),
        (
            TurnStage::Completing { session_id, reply, plan, claimed },
            TurnEvent::Completed { finalized },
        ) => turn_completed(session_id, reply, plan, claimed, finalized),
        (TurnStage::Sending { session_id, plan }, TurnEvent::Done) => (
            TurnStage::Committing { session_id, plan },
            TurnStep::CommitReply { preview_completed: false },
        ),
        (TurnStage::ClaimingPlan, TurnEvent::Claimed { claimed }) => if claimed {
            (TurnStage::AskingForPlan, TurnStep::SendPlanPrompt)
        } else {
            (TurnStage::Dispatching, TurnStep::DispatchOutbox)
        },
        (TurnStage::AskingForPlan, TurnEvent::Done) => (
            TurnStage::CommittingPlan,
            TurnStep::CommitPlanPrompt,
        ),
        (TurnStage::Dispatching, TurnEvent::Done) => turn_ended(Ok(())),
        (TurnStage::Breaking { reason }, TurnEvent::Done) => (
            TurnStage::LoggingFailure,
            TurnStep::LogFailure { reason },
        ),
        (TurnStage::LoggingFailure, TurnEvent::Done) => (
            TurnStage::Warning,
            TurnStep::Warn { warning: TurnWarning::SessionUnavailable },
        ),
        (TurnStage::Warning, TurnEvent::Done) => (TurnStage::Retitling, TurnStep::Retitle),
        (TurnStage::Last, TurnEvent::Done) => turn_ended(Ok(())),
        _ => turn_ended(Err(TurnError::OutOfTurn)),
    }
}

/// The next step of a turn.
pub fn advance_turn(stage: TurnStage, event: TurnEvent) -> (res: (TurnStage, TurnStep))
    ensures
        res == turn_next(stage, event),
{
    match (stage, event) {
        (TurnStage::Finished, _) => end_turn(Err(TurnError::OutOfTurn)),
        (TurnStage::OpeningWorkspace { .. }, TurnEvent::Failed(_)) => end_turn(
            Err(TurnError::WorkspaceUnavailable),
        ),
        (TurnStage::ReadingMode { .. }, TurnEvent::Failed(_)) => end_turn(
            Err(TurnError::ModeUnknown),
        ),
        (TurnStage::Sending { .. }, TurnEvent::Failed(reason)) => (
            TurnStage::GivingUp { reason: reason.clone() },
            TurnStep::FailReply { reason },
        ),
        (TurnStage::GivingUp { reason }, _) => end_turn(Err(TurnError::Outside(reason))),
        (TurnStage::Committing { session_id, plan }, _) => on_turn_replied(session_id, plan),
        (TurnStage::CommittingPlan, _) => (TurnStage::Dispatching, TurnStep::DispatchOutbox),
        (TurnStage::Dispatching, TurnEvent::Failed(_)) => end_turn(Err(TurnError::OutboxStuck)),
        (TurnStage::RecordingFailure { reason, harmless }, _) => if harmless {
            (TurnStage::Last, TurnStep::Warn { warning: TurnWarning::ModeUnavailable { reason } })
        } else {
            (TurnStage::Breaking { reason: reason.clone() }, TurnStep::MarkBroken { reason })
        },
        (TurnStage::Retitling, _) => end_turn(Ok(())),
        (_, TurnEvent::Failed(reason)) => end_turn(Err(TurnError::Outside(reason))),
        (TurnStage::OpeningWorkspace { mode, target }, TurnEvent::Done) => (
            TurnStage::ReadingMode { mode, target: target.copy() },
            TurnStep::ReadMode { workspace: target.workspace },
        ),
        (TurnStage::ReadingMode { mode, target }, TurnEvent::Mode(execution)) => (
            TurnStage::Running { mode, target: target.copy() },
            TurnStep::Run { mode, execution, target },
        ),
        (TurnStage::Running { mode, target }, TurnEvent::Ran(outcome)) => (
            TurnStage::Stopping { mode, target, outcome },
            TurnStep::StopHeartbeats,
        ),
        (TurnStage::Stopping { mode, target, outcome }, TurnEvent::Done) => on_turn_stopped(
            mode,
            target,
            outcome,
        ),
        (TurnStage::RecordingInterrupt { execution }, TurnEvent::Done) => (
            TurnStage::VerifyingInterrupted { execution },
            TurnStep::MarkVerified,
        ),
        (TurnStage::VerifyingInterrupted { execution }, TurnEvent::Done) => (
            TurnStage::UpdatingInterrupted,
            TurnStep::UpdateExecution { execution },
        ),
        (TurnStage::UpdatingInterrupted, TurnEvent::Done) => (
            TurnStage::Last,
            TurnStep::LogInterrupt,
        ),
        (TurnStage::RecordingEnd { session_id, execution, reply, plan }, TurnEvent::Done) => (
            TurnStage::Verifying { session_id, execution, reply, plan },
            TurnStep::MarkVerified,
        ),
        (TurnStage::Verifying { session_id, execution, reply, plan }, TurnEvent::Done) => (
            TurnStage::Updating { session_id, reply, plan },
            TurnStep::UpdateExecution { execution },
        ),
        (TurnStage::Updating { session_id, reply: Some(reply), plan }, TurnEvent::Done) => (
            TurnStage::LoggingReply { session_id, reply: reply.copy(), plan },
            TurnStep::LogReply { reply: reply.text },
        ),
        (TurnStage::Updating { session_id, reply: None, plan }, TurnEvent::Done) => on_turn_replied(
            session_id,
            plan,
        ),
        (TurnStage::LoggingReply { session_id, reply, plan }, TurnEvent::Done) => (
            TurnStage::Mirroring { session_id: session_id.copy(), reply: reply.copy(), plan },
            TurnStep::MirrorReply { session_id, reply },
        ),
        (TurnStage::Mirroring { session_id, reply, plan }, TurnEvent::Done) => (
            TurnStage::Claiming { session_id: session_id.copy(), reply: reply.copy(), plan },
            TurnStep::ClaimReply { session_id, reply },
        ),
        (TurnStage::Claiming { session_id, reply, plan }, TurnEvent::Claimed { claimed }) => (
            TurnStage::Completing { session_id, reply: reply.text.clone(), plan, claimed },
            TurnStep::CompletePreview { reply: reply.text },
        ),
        (
            TurnStage::Completing { session_id, reply, plan, claimed },
            TurnEvent::Completed { finalized },
        ) => on_turn_completed(session_id, reply, plan, claimed, finalized),
        (TurnStage::Sending { session_id, plan }, TurnEvent::Done) => (
            TurnStage::Committing { session_id, plan },
            TurnStep::CommitReply { preview_completed: false },
        ),
        (TurnStage::ClaimingPlan, TurnEvent::Claimed { claimed }) => if claimed {
            (TurnStage::AskingForPlan, TurnStep::SendPlanPrompt)
        } else {
            (TurnStage::Dispatching, TurnStep::DispatchOutbox)
        },
        (TurnStage::AskingForPlan, TurnEvent::Done) => (
            TurnStage::CommittingPlan,
            TurnStep::CommitPlanPrompt,
        ),
        (TurnStage::Dispatching, TurnEvent::Done) => end_turn(Ok(())),
        (TurnStage::Breaking { reason }, TurnEvent::Done) => (
            TurnStage::LoggingFailure,
            TurnStep::LogFailure { reason },
        ),
        (TurnStage::LoggingFailure, TurnEvent::Done) => (
            TurnStage::Warning,
            TurnStep::Warn { warning: TurnWarning::SessionUnavailable },
        ),
        (TurnStage::Warning, TurnEvent::Done) => (TurnStage::Retitling, TurnStep::Retitle),
        (TurnStage::Last, TurnEvent::Done) => end_turn(Ok(())),
        _ => end_turn(Err(TurnError::OutOfTurn)),
    }
}

/// How many steps a turn can still take.
pub open spec fn turn_steps_left(stage: TurnStage) -> nat {
    match stage {
        TurnStage::OpeningWorkspace { .. } => 18,
        TurnStage::ReadingMode { .. } => 17,
        TurnStage::Running { .. } => 16,
        TurnStage::Stopping { .. } => 15,
        TurnStage::RecordingInterrupt { .. } => 4,
        TurnStage::VerifyingInterrupted { .. } => 3,
        TurnStage::UpdatingInterrupted => 2,
        TurnStage::RecordingEnd { .. } => 14,
        TurnStage::Verifying { .. } => 13,
        TurnStage::Updating { .. } => 12,
        TurnStage::LoggingReply { .. } => 11,
        TurnStage::Mirroring { .. } => 10,
        TurnStage::Claiming { .. } => 9,
        TurnStage::Completing { .. } => 8,
        TurnStage::Sending { .. } => 7,
        TurnStage::GivingUp { .. } => 1,
        TurnStage::Committing { .. } => 6,
        TurnStage::ClaimingPlan => 5,
        TurnStage::AskingForPlan => 4,
        TurnStage::CommittingPlan => 3,
        TurnStage::Dispatching => 2,
        TurnStage::RecordingFailure { .. } => 6,
        TurnStage::Breaking { .. } => 5,
        TurnStage::LoggingFailure => 4,
        TurnStage::Warning => 3,
        TurnStage::Retitling => 2,
        TurnStage::Last => 1,
        TurnStage::Finished => 0,
    }
}

/// Whatever comes of its steps, a turn ends.
pub proof fn law_turn_ends(stage: TurnStage, event: TurnEvent)
    ensures
        turn_next(stage, event).1 is Finish <==> turn_next(stage, event).0 is Finished,
        stage !is Finished ==> turn_steps_left(turn_next(stage, event).0) < turn_steps_left(stage),
        stage is Finished ==> turn_next(stage, event).0 is Finished,
{
}

/// A reply is delivered at most once: it is sent only if the delivery is this turn's to make and
/// the preview does not show it already.
pub proof fn law_reply_is_delivered_once(stage: TurnStage, event: TurnEvent)
    ensures
        turn_next(stage, event).1 is SendReply ==> (stage matches TurnStage::Completing {
            claimed,
            ..
        } && claimed) && (event matches TurnEvent::Completed { finalized } && !finalized),
        turn_next(stage, event).1 is CommitReply ==> stage is Sending || (
        stage matches TurnStage::Completing { claimed, .. } && claimed),
{
}

/// The user is asked what becomes of a plan only where the turn ran in plan mode and made one.
pub proof fn law_plan_prompt_needs_a_plan(
    mode: CollaborationMode,
    target: TurnTarget,
    outcome: TurnOutcome,
    plan: Option<PlanQuestion>,
)
    ensures
        turn_next(TurnStage::Stopping { mode, target, outcome }, TurnEvent::Done).0
            matches TurnStage::RecordingEnd { plan, .. } ==> (plan is Some <==> mode
            == CollaborationMode::Plan && outcome->has_plan),
        turn_replied(target.session_id, plan).1 is ClaimPlanPrompt <==> plan is Some,
        turn_replied(target.session_id, plan).1 is DispatchOutbox <==> plan is None,
{
}

/// A turn that failed leaves its session marked as broken, unless only its mode was not to be had;
/// a turn that was interrupted or ended leaves it verified.
pub proof fn law_failed_turns_break_the_session(
    reason: String,
    harmless: bool,
    mode: CollaborationMode,
    target: TurnTarget,
    event: TurnEvent,
    stage: TurnStage,
)
    ensures
        ({
            let recording = turn_next(
                TurnStage::Stopping {
                    mode,
                    target,
                    outcome: TurnOutcome::Failed { reason, harmless },
                },
                TurnEvent::Done,
            );
            &&& harmless ==> turn_next(recording.0, event).1 == (TurnStep::Warn {
                warning: TurnWarning::ModeUnavailable { reason },
            })
            &&& !harmless ==> turn_next(recording.0, event).1 == (TurnStep::MarkBroken { reason })
        }),
        stage is RecordingInterrupt || stage is RecordingEnd ==> turn_next(
            stage,
            TurnEvent::Done,
        ).1 is MarkVerified,
{
}

/// A turn runs in the mode that was read of its workspace, once it was read.
pub proof fn law_turns_run_in_the_mode_of_their_workspace(stage: TurnStage, event: TurnEvent)
    ensures
        turn_next(stage, event).1 matches TurnStep::Run { mode, execution, target } ==> stage == (
        TurnStage::ReadingMode { mode, target }) && event == TurnEvent::Mode(execution),
        turn_next(stage, event).0 matches TurnStage::ReadingMode { target, .. } ==> turn_next(
            stage,
            event,
        ).1 == (TurnStep::ReadMode { workspace: target.workspace }),
{
}

/// The permissions that are kept with a session behind a turn are those that the turn reported,
/// whether it was interrupted or ended; behind no other turn are any kept.
pub proof fn law_reported_permissions_are_kept(
    mode: CollaborationMode,
    target: TurnTarget,
    outcome: TurnOutcome,
    stage: TurnStage,
    event: TurnEvent,
)
    ensures
        ({
            let ran = turn_next(TurnStage::Running { mode, target }, TurnEvent::Ran(outcome));
            let stopped = turn_next(ran.0, TurnEvent::Done);
            let verified = turn_next(stopped.0, TurnEvent::Done);
            let updated = turn_next(verified.0, TurnEvent::Done).1;
            match outcome {
                TurnOutcome::Interrupted { execution, .. } => updated == (
                TurnStep::UpdateExecution { execution }),
                TurnOutcome::Ended { execution, .. } => updated == (TurnStep::UpdateExecution {
                    execution,
                }),
                TurnOutcome::Failed { .. } => updated !is UpdateExecution,
            }
        }),
        turn_next(stage, event).1 is UpdateExecution ==> stage is VerifyingInterrupted || stage
            is Verifying,
        turn_next(stage, event).0 is VerifyingInterrupted ==> stage is RecordingInterrupt,
        turn_next(stage, event).0 is Verifying ==> stage is RecordingEnd,
        turn_next(stage, event).0 is RecordingInterrupt || turn_next(stage, event).0
            is RecordingEnd ==> stage is Stopping,
        turn_next(stage, event).0 is Stopping ==> stage is Running && event is Ran,
{
}

/// The session that a turn continues, as long as something is still to be done about it.
pub open spec fn turn_session(stage: TurnStage) -> Option<SessionId> {
    match stage {
        TurnStage::OpeningWorkspace { target, .. } => Some(target.session_id),
        TurnStage::ReadingMode { target, .. } => Some(target.session_id),
        TurnStage::Running { target, .. } => Some(target.session_id),
        TurnStage::Stopping { target, .. } => Some(target.session_id),
        TurnStage::RecordingEnd { session_id, .. } => Some(session_id),
        TurnStage::Verifying { session_id, .. } => Some(session_id),
        TurnStage::Updating { session_id, .. } => Some(session_id),
        TurnStage::LoggingReply { session_id, .. } => Some(session_id),
        TurnStage::Mirroring { session_id, .. } => Some(session_id),
        TurnStage::Claiming { session_id, .. } => Some(session_id),
        TurnStage::Completing { session_id, .. } => Some(session_id),
        TurnStage::Sending { session_id, .. } => Some(session_id),
        TurnStage::Committing { session_id, .. } => Some(session_id),
        _ => None,
    }
}

/// A turn continues one session to its end: what is recorded, mirrored and claimed for it is about
/// the session that it was begun with.
pub proof fn law_turns_keep_their_session(stage: TurnStage, event: TurnEvent)
    ensures
        turn_session(turn_next(stage, event).0) is Some ==> turn_session(
            turn_next(stage, event).0,
        ) == turn_session(stage),
        match turn_next(stage, event).1 {
            TurnStep::Run { target, .. } => turn_session(stage) == Some(target.session_id),
            TurnStep::RecordInterrupt { target, .. } => turn_session(stage) == Some(
                target.session_id,
            ),
            TurnStep::RecordEnd { target, .. } => turn_session(stage) == Some(target.session_id),
            TurnStep::RecordFailure { target } => turn_session(stage) == Some(target.session_id),
            TurnStep::MirrorReply { session_id, .. } => turn_session(stage) == Some(session_id),
            TurnStep::ClaimReply { session_id, .. } => turn_session(stage) == Some(session_id),
            TurnStep::ClaimPlanPrompt { session_id, .. } => turn_session(stage) == Some(
                session_id,
            ),
            _ => true,
        },
{
}

/// Why a plan is not carried out.
#[derive(Debug)]
pub enum PlanError {
    /// A step outside failed, for the reason given.
    Outside(String),
    MissingThreadId,
    Archived,
    Unusable,
    Busy { busy: SessionCurrentStatus },
    /// The binding of the thread names no workspace.
    MissingWorkspace,
    /// Something was reported that was not asked for.
    OutOfTurn,
}

impl PlanError {
    /// The reason, in words.
    pub open spec fn message(self) -> Seq<char> {
        match self {
            PlanError::Outside(reason) => reason@,
            PlanError::MissingThreadId => "thread message missing thread id"@,
            PlanError::Archived => "workspace is archived"@,
            PlanError::Unusable => "workspace is missing a usable session"@,
            PlanError::Busy { busy } => busy_copy::busy_prompt_text(busy, false),
            PlanError::MissingWorkspace => "session binding is missing workspace_cwd"@,
            PlanError::OutOfTurn => "a step was reported that was not asked for"@,
        }
    }

    /// The reason, in words.
    pub fn to_text(&self) -> (res: String)
        ensures
            res@ == self.message(),
    {
        match self {
            PlanError::Outside(reason) => reason.clone(),
            PlanError::MissingThreadId => "thread message missing thread id".to_owned(),
            PlanError::Archived => "workspace is archived".to_owned(),
            PlanError::Unusable => "workspace is missing a usable session".to_owned(),
            PlanError::Busy { busy } => busy_copy::busy_text_message(busy, false),
            PlanError::MissingWorkspace => "session binding is missing workspace_cwd".to_owned(),
            PlanError::OutOfTurn => "a step was reported that was not asked for".to_owned(),
        }
    }
}

/// How far the carrying out of a plan has come.
#[derive(Debug)]
pub enum PlanStage {
    Routing,
    Preparing { target: TurnTarget },
    SettingMode { target: TurnTarget },
    Logging { target: TurnTarget },
    Mirroring { target: TurnTarget },
    Claiming { target: TurnTarget },
    Committing { target: TurnTarget },
    RecordingStart { target: TurnTarget },
    Last,
    Finished,
}

/// What came of a step.
#[derive(Debug)]
pub enum PlanEvent {
    Done,
    /// What is known of the thread, once the input was routed to its session.
    Thread(ThreadFacts),
    Failed(String),
}

/// What is to be done next.
#[derive(Debug)]
pub enum PlanStep {
    /// Find the thread, route the input to its session, and find out what is known of it then.
    Route,
    /// Make sure that the runtime of the workspace runs.
    PrepareRuntime { workspace: String },
    /// Go back to default mode, in which the plan is carried out.
    SetDefaultMode,
    LogPrompt,
    MirrorPrompt { session_id: SessionId },
    ClaimEcho { session_id: SessionId },
    CommitEcho,
    RecordStart { target: TurnTarget },
    StartTurn { mode: CollaborationMode, target: TurnTarget },
    Finish { outcome: Result<(), PlanError> },
}

/// The first step of the carrying out of a plan.
pub fn begin_plan(in_thread: bool) -> (res: (PlanStage, PlanStep))
    ensures
        res == if in_thread {
            (PlanStage::Routing, PlanStep::Route)
        } else {
            plan_ended(Err(PlanError::MissingThreadId))
        },
{
    if in_thread {
        (PlanStage::Routing, PlanStep::Route)
    } else {
        end_plan(Err(PlanError::MissingThreadId))
    }
}

/// What follows from what is known of the thread.
pub open spec fn plan_routed(facts: ThreadFacts) -> (PlanStage, PlanStep) {
    if facts.state.lifecycle_status == LifecycleStatus::Archived {
        plan_ended(Err(PlanError::Archived))
    } else if facts.usable() is None {
        plan_ended(Err(PlanError::Unusable))
    } else {
        match facts.busy {
            Some(busy) => plan_ended(Err(PlanError::Busy { busy })),
            None => match facts.target() {
                Some(target) => (
                    PlanStage::Preparing { target },
                    PlanStep::PrepareRuntime { workspace: target.workspace },
                ),
                None => plan_ended(Err(PlanError::MissingWorkspace)),
            },
        }
    }
}

fn on_plan_routed(facts: ThreadFacts) -> (res: (PlanStage, PlanStep))
    ensures
        res == plan_routed(facts),
{
    if facts.state.is_archived() {
        return end_plan(Err(PlanError::Archived));
    }
    if !facts.is_usable() {
        return end_plan(Err(PlanError::Unusable));
    }
    let target = facts.turn_target();
    match facts.busy {
        Some(busy) => end_plan(Err(PlanError::Busy { busy })),
        None => match target {
            Some(target) => {
                let workspace = target.workspace.clone();
                (PlanStage::Preparing { target }, PlanStep::PrepareRuntime { workspace })
            },
            None => end_plan(Err(PlanError::MissingWorkspace)),
        },
    }
}

/// The end of the carrying out of a plan.
pub open spec fn plan_ended(outcome: Result<(), PlanError>) -> (PlanStage, PlanStep) {
    (PlanStage::Finished, PlanStep::Finish { outcome })
}

fn end_plan(outcome: Result<(), PlanError>) -> (res: (PlanStage, PlanStep))
    ensures
        res == plan_ended(outcome),
{
    (PlanStage::Finished, PlanStep::Finish { outcome })
}

/// What follows from an event.
pub open spec fn plan_next(stage: PlanStage, event: PlanEvent) -> (PlanStage, PlanStep) {
    match (stage, event) {
        (PlanStage::Finished, _) => plan_ended(Err(PlanError::OutOfTurn)),
        (PlanStage::Committing { target }, _) => (
            PlanStage::RecordingStart { target: target },
            PlanStep::RecordStart { target },
        ),
        (_, PlanEvent::Failed(reason)) => plan_ended(Err(PlanError::Outside(reason))),
        (PlanStage::Routing, PlanEvent::Thread(facts)) => plan_routed(facts),
        (PlanStage::Preparing { target }, PlanEvent::Done) => (
            PlanStage::SettingMode { target },
            PlanStep::SetDefaultMode,
        ),
        (PlanStage::SettingMode { target }, PlanEvent::Done) => (
            PlanStage::Logging { target },
            PlanStep::LogPrompt,
        ),
        (PlanStage::Logging { target }, PlanEvent::Done) => (
            PlanStage::Mirroring { target: target },
            PlanStep::MirrorPrompt { session_id: target.session_id },
        ),
        (PlanStage::Mirroring { target }, PlanEvent::Done) => (
            PlanStage::Claiming { target: target },
            PlanStep::ClaimEcho { session_id: target.session_id },
        ),
        (PlanStage::Claiming { target }, PlanEvent::Done) => (
            PlanStage::Committing { target },
            PlanStep::CommitEcho,
        ),
        (PlanStage::RecordingStart { target }, PlanEvent::Done) => (
            PlanStage::Last,
            PlanStep::StartTurn { mode: CollaborationMode::Default, target },
        ),
        (PlanStage::Last, PlanEvent::Done) => plan_ended(Ok(())),
        _ => plan_ended(Err(PlanError::OutOfTurn)),
    }
}

/// The next step of the carrying out of a plan.
pub fn advance_plan(stage: PlanStage, event: PlanEvent) -> (res: (PlanStage, PlanStep))
    ensures
        res == plan_next(stage, event),
{
    match (stage, event) {
        (PlanStage::Finished, _) => end_plan(Err(PlanError::OutOfTurn)),
        (PlanStage::Committing { target }, _) => (
            PlanStage::RecordingStart { target: target.copy() },
            PlanStep::RecordStart { target },
        ),
        (_, PlanEvent::Failed(reason)) => end_plan(Err(PlanError::Outside(reason))),
        (PlanStage::Routing, PlanEvent::Thread(facts)) => on_plan_routed(facts),
        (PlanStage::Preparing { target }, PlanEvent::Done) => (
            PlanStage::SettingMode { target },
            PlanStep::SetDefaultMode,
        ),
        (PlanStage::SettingMode { target }, PlanEvent::Done) => (
            PlanStage::Logging { target },
            PlanStep::LogPrompt,
        ),
        (PlanStage::Logging { target }, PlanEvent::Done) => (
            PlanStage::Mirroring { target: target.copy() },
            PlanStep::MirrorPrompt { session_id: target.session_id },
        ),
        (PlanStage::Mirroring { target }, PlanEvent::Done) => (
            PlanStage::Claiming { target: target.copy() },
            PlanStep::ClaimEcho { session_id: target.session_id },
        ),
        (PlanStage::Claiming { target }, PlanEvent::Done) => (
            PlanStage::Committing { target },
            PlanStep::CommitEcho,
        ),
        (PlanStage::RecordingStart { target }, PlanEvent::Done) => (
            PlanStage::Last,
            PlanStep::StartTurn { mode: CollaborationMode::Default, target },
        ),
        (PlanStage::Last, PlanEvent::Done) => end_plan(Ok(())),
        _ => end_plan(Err(PlanError::OutOfTurn)),
    }
}

/// How many steps the carrying out of a plan can still take.
pub open spec fn plan_steps_left(stage: PlanStage) -> nat {
    match stage {
        PlanStage::Routing => 9,
        PlanStage::Preparing { .. } => 8,
        PlanStage::SettingMode { .. } => 7,
        PlanStage::Logging { .. } => 6,
        PlanStage::Mirroring { .. } => 5,
        PlanStage::Claiming { .. } => 4,
        PlanStage::Committing { .. } => 3,
        PlanStage::RecordingStart { .. } => 2,
        PlanStage::Last => 1,
        PlanStage::Finished => 0,
    }
}

/// Whatever comes of its steps, the carrying out of a plan ends.
pub proof fn law_plan_ends(stage: PlanStage, event: PlanEvent)
    ensures
        plan_next(stage, event).1 is Finish <==> plan_next(stage, event).0 is Finished,
        stage !is Finished ==> plan_steps_left(plan_next(stage, event).0) < plan_steps_left(stage),
        stage is Finished ==> plan_next(stage, event).0 is Finished,
{
}

/// A plan is carried out in default mode, and only behind the change to it, in a thread that is
/// neither archived nor busy and whose session is usable.
pub proof fn law_plans_run_in_default_mode(stage: PlanStage, event: PlanEvent)
    ensures
        plan_next(stage, event).1 matches PlanStep::StartTurn { mode, .. } ==> mode
            == CollaborationMode::Default && stage is RecordingStart,
        plan_next(stage, event).0 is Logging ==> stage is SettingMode && event is Done,
        plan_next(stage, event).0 is Preparing ==> stage is Routing && (
        event matches PlanEvent::Thread(facts) && facts.state.lifecycle_status
            != LifecycleStatus::Archived && facts.usable() is Some && facts.busy is None),
{
}

/// What a plan is to be carried out in, once it is known.
pub open spec fn plan_target(stage: PlanStage) -> Option<TurnTarget> {
    match stage {
        PlanStage::Preparing { target } => Some(target),
        PlanStage::SettingMode { target } => Some(target),
        PlanStage::Logging { target } => Some(target),
        PlanStage::Mirroring { target } => Some(target),
        PlanStage::Claiming { target } => Some(target),
        PlanStage::Committing { target } => Some(target),
        PlanStage::RecordingStart { target } => Some(target),
        _ => None,
    }
}

/// A plan is carried out in the session of the thread that the press of the button was routed to,
/// in the workspace of its binding. The entry of the transcript, the claim and the record are about
/// that same session.
pub proof fn law_plans_keep_their_session(stage: PlanStage, event: PlanEvent, facts: ThreadFacts)
    ensures
        plan_next(PlanStage::Routing, PlanEvent::Thread(facts)).0 matches PlanStage::Preparing {
            target,
        } ==> facts.usable() == Some(target.session_id@) && facts.session->0.workspace_cwd == Some(
            target.workspace,
        ),
        plan_target(plan_next(stage, event).0) is Some ==> stage is Routing || plan_target(
            plan_next(stage, event).0,
        ) == plan_target(stage),
        plan_next(stage, event).1 matches PlanStep::MirrorPrompt { session_id } ==> plan_target(
            stage,
        )->0.session_id == session_id,
        plan_next(stage, event).1 matches PlanStep::ClaimEcho { session_id } ==> plan_target(
            stage,
        )->0.session_id == session_id,
        plan_next(stage, event).1 matches PlanStep::RecordStart { target } ==> plan_target(stage)
            == Some(target),
        plan_next(stage, event).1 matches PlanStep::StartTurn { target, .. } ==> plan_target(stage)
            == Some(target),
{
}

/// The control chat takes no prompt, and a message outside of a thread is none. In a thread a prompt
/// is first offered to the questions that wait, and what answers one goes no further.
pub proof fn law_prompts_answer_questions_first(in_thread: bool, outcome: AnswerOutcome)
    ensures
        prompt_start(true, in_thread).1 == (PromptStep::Reply { notice: PromptNotice::ControlChat }),
        prompt_start(false, false).1 == (PromptStep::Finish {
            outcome: Err(FlowError::MissingThreadId),
        }),
        ({
            let found = prompt_next(prompt_start(false, true).0, PromptEvent::Done);
            let answered = prompt_next(found.0, PromptEvent::Submitted(Some(outcome)));
            &&& prompt_start(false, true).1 is LoadRecord
            &&& found.1 is Submit
            &&& answered.1 == (PromptStep::GoOnAsking { outcome })
            &&& prompt_next(answered.0, PromptEvent::Done).1 == (PromptStep::Finish {
                outcome: Ok(()),
            })
            &&& prompt_next(found.0, PromptEvent::Submitted(None)).1 is Route
        }),
{
}

/// Whose prompt goes nowhere is told why: the workspace is archived, its session cannot be used, or
/// a turn runs.
pub proof fn law_refused_prompts_are_told_why(
    facts: ThreadFacts,
    busy: SessionCurrentStatus,
    mode: CollaborationMode,
    target: TurnTarget,
)
    ensures
        ({
            let routed = prompt_next(PromptStage::Routing, PromptEvent::Thread(facts)).1;
            let archived = facts.state.lifecycle_status == LifecycleStatus::Archived;
            &&& archived ==> routed == (PromptStep::Reply { notice: PromptNotice::Archived })
            &&& !archived && facts.usable() is None ==> routed == (PromptStep::Reply {
                notice: PromptNotice::Unusable { state: facts.state, session: facts.session },
            })
            &&& !archived && facts.usable() is Some ==> (
            facts.session->0.workspace_cwd matches Some(workspace) ==> routed == (
            PromptStep::PrepareRuntime { workspace }))
        }),
        prompt_next(
            PromptStage::Preparing { busy: Some(busy), mode, target },
            PromptEvent::Done,
        ).1 == (PromptStep::Reply { notice: PromptNotice::Busy { busy } }),
        PromptNotice::Archived.body() == "This workspace is archived."@,
        (PromptNotice::Busy { busy }).body() == busy_copy::busy_prompt_text(busy, false),
{
}

/// Images that wait are analysed with the prompt, instead of a turn for the prompt alone.
pub proof fn law_prompts_analyse_waiting_images(
    mode: CollaborationMode,
    target: TurnTarget,
    batch: BatchFacts,
)
    requires
        batch.images > 0,
    ensures
        ({
            let read = prompt_next(
                PromptStage::ReadingBatch { mode, target },
                PromptEvent::Batch(Some(batch)),
            );
            let logged = prompt_next(read.0, PromptEvent::Done);
            &&& read.1 is LogPrompt
            &&& logged.1 == (PromptStep::AnalyzeBatch { batch_id: batch.batch_id })
            &&& prompt_next(logged.0, PromptEvent::Done).1 == (PromptStep::Finish {
                outcome: Ok(()),
            })
        }),
{
}

/// The reply of a turn is put on record, logged, mirrored and claimed as the turn gave it, and shown
/// in the preview. It is sent only if the delivery is the turn's to make and the preview does not
/// show it, and the delivery is put on record either way.
pub proof fn law_replies_of_turns_are_delivered(
    mode: CollaborationMode,
    target: TurnTarget,
    turn_id: Option<String>,
    execution: SessionExecutionSnapshot,
    text: String,
    has_plan: bool,
    claimed: bool,
    finalized: bool,
)
    ensures
        ({
            let reply = TurnReply { turn_id, text };
            let ran = turn_next(
                TurnStage::Running { mode, target },
                TurnEvent::Ran(
                    TurnOutcome::Ended { turn_id, execution, reply: Some(text), has_plan },
                ),
            );
            let recorded = turn_next(ran.0, TurnEvent::Done);
            let verified = turn_next(recorded.0, TurnEvent::Done);
            let updated = turn_next(verified.0, TurnEvent::Done);
            let logged = turn_next(updated.0, TurnEvent::Done);
            let mirrored = turn_next(logged.0, TurnEvent::Done);
            let claiming = turn_next(mirrored.0, TurnEvent::Done);
            let shown = turn_next(claiming.0, TurnEvent::Claimed { claimed });
            let done = turn_next(shown.0, TurnEvent::Completed { finalized });
            &&& ran.1 is StopHeartbeats
            &&& recorded.1 == (TurnStep::RecordEnd { target, reply: Some(text) })
            &&& verified.1 is MarkVerified
            &&& updated.1 == (TurnStep::UpdateExecution { execution })
            &&& logged.1 == (TurnStep::LogReply { reply: text })
            &&& mirrored.1 == (TurnStep::MirrorReply { session_id: target.session_id, reply })
            &&& claiming.1 == (TurnStep::ClaimReply { session_id: target.session_id, reply })
            &&& shown.1 == (TurnStep::CompletePreview { reply: text })
            &&& claimed && !finalized ==> done.1 == (TurnStep::SendReply { reply: text })
                && turn_next(done.0, TurnEvent::Done).1 == (TurnStep::CommitReply {
                preview_completed: false,
            })
            &&& claimed && finalized ==> done.1 == (TurnStep::CommitReply {
                preview_completed: true,
            })
            &&& !claimed ==> done.1 is DispatchOutbox || done.1 is ClaimPlanPrompt
        }),
{
}

/// Behind its reply, or without one, a turn in plan mode that made a plan asks what becomes of it,
/// if the question is its to ask; every turn then sends what waits in the outbox.
pub proof fn law_plans_are_asked_about_behind_the_reply(
    mode: CollaborationMode,
    target: TurnTarget,
    turn_id: Option<String>,
    execution: SessionExecutionSnapshot,
    has_plan: bool,
    event: TurnEvent,
)
    ensures
        ({
            let stopped = turn_next(
                TurnStage::Stopping {
                    mode,
                    target,
                    outcome: TurnOutcome::Ended { turn_id, execution, reply: None, has_plan },
                },
                TurnEvent::Done,
            );
            let verified = turn_next(stopped.0, TurnEvent::Done);
            let updated = turn_next(verified.0, TurnEvent::Done);
            let behind = turn_next(updated.0, TurnEvent::Done);
            let asking = turn_next(behind.0, TurnEvent::Claimed { claimed: true });
            let asked = turn_next(asking.0, TurnEvent::Done);
            &&& mode == CollaborationMode::Plan && has_plan ==> behind.1 == (
            TurnStep::ClaimPlanPrompt {
                session_id: target.session_id,
                question: PlanQuestion { turn_id, reply: None },
            }) && asking.1 is SendPlanPrompt && asked.1 is CommitPlanPrompt && turn_next(
                asked.0,
                event,
            ).1 is DispatchOutbox && turn_next(
                behind.0,
                TurnEvent::Claimed { claimed: false },
            ).1 is DispatchOutbox
            &&& mode == CollaborationMode::Default || !has_plan ==> behind.1 is DispatchOutbox
        }),
        turn_next(TurnStage::Dispatching, TurnEvent::Done).1 == (TurnStep::Finish {
            outcome: Ok(()),
        }),
{
}

/// A turn that was interrupted is put on record as such, for its session and its turn, and logged;
/// nothing of it is sent.
pub proof fn law_interrupted_turns_are_recorded(
    mode: CollaborationMode,
    target: TurnTarget,
    turn_id: Option<String>,
    execution: SessionExecutionSnapshot,
)
    ensures
        ({
            let stopped = turn_next(
                TurnStage::Stopping {
                    mode,
                    target,
                    outcome: TurnOutcome::Interrupted { turn_id, execution },
                },
                TurnEvent::Done,
            );
            let verified = turn_next(stopped.0, TurnEvent::Done);
            let updated = turn_next(verified.0, TurnEvent::Done);
            let logged = turn_next(updated.0, TurnEvent::Done);
            &&& stopped.1 == (TurnStep::RecordInterrupt { target, turn_id })
            &&& verified.1 is MarkVerified
            &&& updated.1 == (TurnStep::UpdateExecution { execution })
            &&& logged.1 is LogInterrupt
            &&& turn_next(logged.0, TurnEvent::Done).1 == (TurnStep::Finish { outcome: Ok(()) })
        }),
{
}

/// A turn that failed is put on record. Unless only its mode was not to be had, its session is marked
/// as broken for the reason of the failure, which is logged, and the user is warned that the session
/// is not to be had.
pub proof fn law_failed_turns_warn_the_user(
    mode: CollaborationMode,
    target: TurnTarget,
    reason: String,
    harmless: bool,
    event: TurnEvent,
)
    ensures
        ({
            let stopped = turn_next(
                TurnStage::Stopping {
                    mode,
                    target,
                    outcome: TurnOutcome::Failed { reason, harmless },
                },
                TurnEvent::Done,
            );
            let next = turn_next(stopped.0, event);
            let marked = turn_next(next.0, TurnEvent::Done);
            let logged = turn_next(marked.0, TurnEvent::Done);
            &&& stopped.1 == (TurnStep::RecordFailure { target })
            &&& harmless ==> marked.1 == (TurnStep::Finish { outcome: Ok(()) })
            &&& !harmless ==> marked.1 == (TurnStep::LogFailure { reason }) && logged.1 == (
            TurnStep::Warn { warning: TurnWarning::SessionUnavailable }) && turn_next(
                logged.0,
                TurnEvent::Done,
            ).1 is Retitle
        }),
{
}

/// A turn that cannot be begun, or whose reply cannot be sent, ends with what went wrong.
pub proof fn law_turns_end_with_what_went_wrong(
    mode: CollaborationMode,
    target: TurnTarget,
    session_id: SessionId,
    plan: Option<PlanQuestion>,
    reason: String,
    event: TurnEvent,
    workspace: Seq<char>,
    thread_key: Seq<char>,
)
    ensures
        turn_next(TurnStage::OpeningWorkspace { mode, target }, TurnEvent::Failed(reason)).1 == (
        TurnStep::Finish { outcome: Err(TurnError::WorkspaceUnavailable) }),
        turn_next(TurnStage::ReadingMode { mode, target }, TurnEvent::Failed(reason)).1 == (
        TurnStep::Finish { outcome: Err(TurnError::ModeUnknown) }),
        turn_next(TurnStage::Dispatching, TurnEvent::Failed(reason)).1 == (TurnStep::Finish {
            outcome: Err(TurnError::OutboxStuck),
        }),
        ({
            let failed = turn_next(
                TurnStage::Sending { session_id, plan },
                TurnEvent::Failed(reason),
            );
            &&& failed.1 == (TurnStep::FailReply { reason })
            &&& turn_next(failed.0, event).1 == (TurnStep::Finish {
                outcome: Err(TurnError::Outside(reason)),
            })
        }),
        TurnError::Outside(reason).message(workspace, thread_key) == reason@,
        text::occurs_at(
            TurnError::WorkspaceUnavailable.message(workspace, thread_key),
            workspace,
            44,
        ),
        text::occurs_at(TurnError::ModeUnknown.message(workspace, thread_key), workspace, 44),
        text::occurs_at(TurnError::OutboxStuck.message(workspace, thread_key), thread_key, 56),
{
    reveal_strlit("failed to resolve shared workspace runtime: ");
    reveal_strlit("failed to resolve workspace execution mode: ");
    reveal_strlit("failed to dispatch workspace telegram outbox for thread ");
    let at: int = "failed to resolve shared workspace runtime: "@.len() as int;
    let gone = TurnError::WorkspaceUnavailable.message(workspace, thread_key);
    assert(gone.subrange(at, at + workspace.len()) =~= workspace);
    let at: int = "failed to resolve workspace execution mode: "@.len() as int;
    let unknown = TurnError::ModeUnknown.message(workspace, thread_key);
    assert(unknown.subrange(at, at + workspace.len()) =~= workspace);
    let at: int = "failed to dispatch workspace telegram outbox for thread "@.len() as int;
    let stuck = TurnError::OutboxStuck.message(workspace, thread_key);
    assert(stuck.subrange(at, at + thread_key.len()) =~= thread_key);
}

/// A plan is not carried out where the thread is archived, has no usable session, or is busy, and the
/// first of these that holds is the reason. Else the thread goes back to default mode, the prompt is
/// logged, mirrored, claimed and put on record, and the turn starts in that mode.
pub proof fn law_plans_are_carried_out_in_idle_threads(
    facts: ThreadFacts,
    target: TurnTarget,
    event: PlanEvent,
)
    ensures
        ({
            let routed = plan_next(PlanStage::Routing, PlanEvent::Thread(facts)).1;
            let archived = facts.state.lifecycle_status == LifecycleStatus::Archived;
            &&& archived ==> routed == (PlanStep::Finish { outcome: Err(PlanError::Archived) })
            &&& !archived && facts.usable() is None ==> routed == (PlanStep::Finish {
                outcome: Err(PlanError::Unusable),
            })
            &&& !archived && facts.usable() is Some ==> (facts.busy matches Some(busy) ==> routed
                == (PlanStep::Finish { outcome: Err(PlanError::Busy { busy }) }))
            &&& !archived && facts.usable() is Some && facts.busy is None ==> (
            facts.session->0.workspace_cwd matches Some(workspace) ==> routed == (
            PlanStep::PrepareRuntime { workspace }))
        }),
        ({
            let prepared = plan_next(PlanStage::Preparing { target }, PlanEvent::Done);
            let set = plan_next(prepared.0, PlanEvent::Done);
            let logged = plan_next(set.0, PlanEvent::Done);
            let mirrored = plan_next(logged.0, PlanEvent::Done);
            let claimed = plan_next(mirrored.0, PlanEvent::Done);
            let committed = plan_next(claimed.0, event);
            &&& prepared.1 is SetDefaultMode
            &&& set.1 is LogPrompt
            &&& logged.1 == (PlanStep::MirrorPrompt { session_id: target.session_id })
            &&& mirrored.1 == (PlanStep::ClaimEcho { session_id: target.session_id })
            &&& claimed.1 is CommitEcho
            &&& committed.1 == (PlanStep::RecordStart { target })
            &&& plan_next(committed.0, PlanEvent::Done).1 == (PlanStep::StartTurn {
                mode: CollaborationMode::Default,
                target,
            })
        }),
        PlanError::Archived.message() == "workspace is archived"@,
        PlanError::Unusable.message() == "workspace is missing a usable session"@,
{
}

/// A prompt or a plan whose binding names no workspace fails for that.
pub proof fn law_turns_need_a_workspace(facts: ThreadFacts)
    requires
        facts.state.lifecycle_status != LifecycleStatus::Archived,
        facts.usable() is Some,
        facts.session is Some,
        facts.session->0.workspace_cwd is None,
    ensures
        prompt_next(PromptStage::Routing, PromptEvent::Thread(facts)).1 == (PromptStep::Finish {
            outcome: Err(FlowError::MissingWorkspace),
        }),
        facts.busy is None ==> plan_next(PlanStage::Routing, PlanEvent::Thread(facts)).1 == (
        PlanStep::Finish { outcome: Err(PlanError::MissingWorkspace) }),
{
}

/// Nothing is taken that was not asked for: what has ended stays so, and an event of another step ends
/// a prompt, a turn or a plan; a step that fails ends it for the reason of the failure.
pub proof fn law_turns_take_only_what_was_asked_for(
    prompt: PromptEvent,
    turn: TurnEvent,
    plan: PlanEvent,
    mode: CollaborationMode,
    target: TurnTarget,
    reason: String,
)
    ensures
        prompt_next(PromptStage::Finished, prompt).1 == (PromptStep::Finish {
            outcome: Err(FlowError::OutOfTurn),
        }),
        prompt !is Thread && prompt !is Failed ==> prompt_next(PromptStage::Routing, prompt).1 == (
        PromptStep::Finish { outcome: Err(FlowError::OutOfTurn) }),
        prompt_next(PromptStage::Routing, PromptEvent::Failed(reason)).1 == (PromptStep::Finish {
            outcome: Err(FlowError::Outside(reason)),
        }),
        turn_next(TurnStage::Finished, turn).1 == (TurnStep::Finish {
            outcome: Err(TurnError::OutOfTurn),
        }),
        turn !is Ran && turn !is Failed ==> turn_next(TurnStage::Running { mode, target }, turn).1
            == (TurnStep::Finish { outcome: Err(TurnError::OutOfTurn) }),
        turn_next(TurnStage::Running { mode, target }, TurnEvent::Failed(reason)).1 == (
        TurnStep::Finish { outcome: Err(TurnError::Outside(reason)) }),
        plan_next(PlanStage::Finished, plan).1 == (PlanStep::Finish {
            outcome: Err(PlanError::OutOfTurn),
        }),
        plan !is Thread && plan !is Failed ==> plan_next(PlanStage::Routing, plan).1 == (
        PlanStep::Finish { outcome: Err(PlanError::OutOfTurn) }),
        plan_next(PlanStage::SettingMode { target }, PlanEvent::Failed(reason)).1 == (
        PlanStep::Finish { outcome: Err(PlanError::Outside(reason)) }),
{
}

/// What is said of a turn that failed names the session and the workspace.
pub proof fn law_failures_name_session_and_workspace(session_id: Seq<char>, workspace: Seq<char>)
    ensures
        text::occurs_at(turn_failure_of(session_id, workspace), session_id, 36),
        ({
            let said = turn_failure_of(session_id, workspace);
            text::occurs_at(said, workspace, said.len() - workspace.len())
        }),
        "Main private chat is the control console."@.is_prefix_of(PromptNotice::ControlChat.body()),
        PlanError::MissingThreadId.message() == "thread message missing thread id"@,
        PlanError::MissingWorkspace.message() == "session binding is missing workspace_cwd"@,
{
    reveal_strlit("failed to run codex turn for thread ");
    reveal_strlit("Main private chat is the control console.");
    reveal_strlit(
        "Main private chat is the control console. Use /add_workspace <absolute-path> first.",
    );
    let said = turn_failure_of(session_id, workspace);
    assert(said.subrange(36, 36 + session_id.len() as int) =~= session_id);
    assert(said.subrange(said.len() - workspace.len(), said.len() as int) =~= workspace);
}

/// What was said in Telegram goes into the transcript as said there and to its end, with the role, the
/// session, the turn, the time and the text that it had.
pub proof fn law_telegram_entries_are_final(
    role: TranscriptMirrorRole,
    timestamp: String,
    session_id: String,
    turn_id: Option<String>,
    said: String,
    entry: TranscriptMirrorEntry,
)
    requires
        call_ensures(telegram_entry, (role, timestamp, session_id, turn_id, said), entry),
    ensures
        entry.origin == TranscriptMirrorOrigin::Telegram,
        entry.delivery == TranscriptMirrorDelivery::Final,
        entry.phase is None,
        entry.role == role,
        entry.timestamp == timestamp,
        entry.session_id == session_id,
        entry.turn_id == turn_id,
        entry.text == said,
{
}

} // verus!
