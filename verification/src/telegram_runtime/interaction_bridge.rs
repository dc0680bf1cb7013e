//! Bringing what a session asks into Telegram.
use vstd::prelude::*;
use vstd::string::*;

use crate::collaboration_mode::CollaborationMode;
use crate::interactive;
use crate::interactive::{InteractivePromptSnapshot, ToolRequestUserInputResponse};
use crate::runtime_interaction::{RuntimeInteractionRequest, TurnCompletionSummary};
use crate::telegram_runtime;
use crate::telegram_runtime::deliveries;
use crate::telegram_runtime::deliveries::DeliveryReport;
use crate::telegram_runtime::{FlowError, TelegramSystemIntent};
use crate::text;

verus! {

broadcast use vstd::string::group_string_axioms;

/// What is brought into Telegram.
#[derive(Debug, Clone, Copy, PartialEq, Eq, Structural)]
pub enum BridgeKind {
    /// A question to the user.
    Question,
    /// Something that the user is to approve of.
    Approval,
    /// The question what becomes of a plan.
    Plan,
}

/// What is put on record about a delivery of the bridge.
pub fn bridge_report(kind: BridgeKind, chat_id: i64, thread_id: i32, message_id: Option<i32>) -> (res:
    DeliveryReport)
    ensures
        res.owner@ == "interaction_bridge"@,
        res.executor@ == "telegram_interaction_bridge"@,
        text::opt_view(res.target_ref) == Some(deliveries::place_of(chat_id, thread_id)),
        text::opt_view(res.target_type) == Some(
            match kind {
                BridgeKind::Question => "telegram_message"@,
                BridgeKind::Approval => "telegram_approval_prompt"@,
                BridgeKind::Plan => "telegram_plan_prompt"@,
            },
        ),
        text::opt_view(res.transport_ref) == match message_id {
            Some(id) => Some("message:"@ + text::signed_decimal(id as int)),
            None => None,
        },
        res.preview_completed is None,
        res.mirror_inserted is None,
        res.skipped is None,
        res.line_no is None,
{
    let target_type = match kind {
        BridgeKind::Question => "telegram_message",
        BridgeKind::Approval => "telegram_approval_prompt",
        BridgeKind::Plan => "telegram_plan_prompt",
    };
    let transport_ref = match message_id {
        Some(id) => Some(deliveries::message_ref(id)),
        None => None,
    };
    DeliveryReport {
        owner: "interaction_bridge".to_owned(),
        executor: "telegram_interaction_bridge".to_owned(),
        transport_ref,
        target_type: Some(target_type.to_owned()),
        target_ref: Some(deliveries::place_text(chat_id, thread_id)),
        preview_completed: None,
        mirror_inserted: None,
        skipped: None,
        line_no: None,
    }
}

/// What the message of a question says once the question is answered.
pub fn questions_resolved_text() -> (res: String)
    ensures
        res@ == telegram_runtime::prefixed(
            telegram_runtime::system_marker(TelegramSystemIntent::Info),
            "Questions resolved."@,
        ),
{
    telegram_runtime::format_system_text(TelegramSystemIntent::Info, "Questions resolved.")
}

/// What the message of an approval says once it is given or refused.
pub fn approval_resolved_text() -> (res: String)
    ensures
        res@ == telegram_runtime::prefixed(
            telegram_runtime::system_marker(TelegramSystemIntent::Info),
            "Approval resolved."@,
        ),
{
    telegram_runtime::format_system_text(TelegramSystemIntent::Info, "Approval resolved.")
}

/// What is brought, with the session that asks, where it is known from the start.
#[derive(Debug)]
pub enum BridgeSubject {
    Question { session_id: String },
    Approval { session_id: String },
    Plan,
}

/// A thread, as far as the bridge looks at it.
#[derive(Debug, Clone, Copy, PartialEq, Eq, Structural)]
pub struct BridgeThread {
    pub chat_id: i64,
    pub message_thread_id: Option<i32>,
}

/// How far the bringing of a question has come.
#[derive(Debug)]
pub enum BridgeStage {
    FindingThread { subject: BridgeSubject },
    Registering { session_id: String },
    ReadingSession,
    Claiming { kind: BridgeKind },
    Sending { kind: BridgeKind },
    Noting { message_id: i32 },
    Committing,
    Finished,
}

/// What came of a step.
#[derive(Debug)]
pub enum BridgeEvent {
    Done,
    /// The thread, where it is active.
    Thread(Option<BridgeThread>),
    /// The session of the thread, where it has one.
    Session(Option<String>),
    /// Whether the delivery is this one's to make.
    Claimed { claimed: bool },
    Sent { message_id: i32 },
    Failed(String),
}

/// What is to be done next.
#[derive(Debug)]
pub enum BridgeStep {
    FindThread,
    /// Have the question wait for its answer.
    Register,
    ReadSession,
    /// Claim the delivery, for the session that asks.
    Claim { kind: BridgeKind, session_id: String },
    Send { kind: BridgeKind },
    /// Remember which message shows the question.
    Note { message_id: i32 },
    Commit { message_id: Option<i32> },
    Finish { outcome: Result<(), FlowError> },
}

/// The first step for a question: one that asks for a secret is not brought.
pub fn begin_question(request: &RuntimeInteractionRequest) -> (res: (BridgeStage, BridgeStep))
    ensures
        res == if interactive::asks_secret(request.params.questions@) {
            bridge_ended(Ok(()))
        } else {
            (
                BridgeStage::FindingThread {
                    subject: BridgeSubject::Question { session_id: request.params.thread_id },
                },
                BridgeStep::FindThread,
            )
        },
{
    if interactive::has_secret_question(&request.params.questions) {
        return end_bridge(Ok(()));
    }
    let session_id = request.params.thread_id.clone();
    (
        BridgeStage::FindingThread { subject: BridgeSubject::Question { session_id } },
        BridgeStep::FindThread,
    )
}

/// The first step for an approval that a session asks for.
pub fn begin_approval(session_id: String) -> (res: (BridgeStage, BridgeStep))
    ensures
        res == (
            BridgeStage::FindingThread { subject: BridgeSubject::Approval { session_id } },
            BridgeStep::FindThread,
        ),
{
    (
        BridgeStage::FindingThread { subject: BridgeSubject::Approval { session_id } },
        BridgeStep::FindThread,
    )
}

/// The first step for a turn that is complete: only a turn in plan mode that has made a plan leads
/// to a question.
pub fn begin_plan_question(summary: &TurnCompletionSummary) -> (res: (BridgeStage, BridgeStep))
    ensures
        res == if summary.collaboration_mode == CollaborationMode::Plan && summary.has_plan {
            (BridgeStage::FindingThread { subject: BridgeSubject::Plan }, BridgeStep::FindThread)
        } else {
            bridge_ended(Ok(()))
        },
{
    if !summary.plan_follow_up_requested() {
        return end_bridge(Ok(()));
    }
    (BridgeStage::FindingThread { subject: BridgeSubject::Plan }, BridgeStep::FindThread)
}

/// What is claimed, for the session that asks.
pub open spec fn bridge_claimed(kind: BridgeKind, session_id: String) -> (BridgeStage, BridgeStep) {
    (BridgeStage::Claiming { kind }, BridgeStep::Claim { kind, session_id })
}

/// What follows once the thread is looked for: without a topic, nothing is brought.
pub open spec fn bridge_found(subject: BridgeSubject, thread: Option<BridgeThread>) -> (
    BridgeStage,
    BridgeStep,
) {
    if thread is None || thread->0.message_thread_id is None {
        bridge_ended(Ok(()))
    } else {
        match subject {
            BridgeSubject::Question { session_id } => (
                BridgeStage::Registering { session_id },
                BridgeStep::Register,
            ),
            BridgeSubject::Approval { session_id } => bridge_claimed(
                BridgeKind::Approval,
                session_id,
            ),
            BridgeSubject::Plan => (BridgeStage::ReadingSession, BridgeStep::ReadSession),
        }
    }
}

fn claim_bridge(kind: BridgeKind, session_id: String) -> (res: (BridgeStage, BridgeStep))
    ensures
        res == bridge_claimed(kind, session_id),
{
    (BridgeStage::Claiming { kind }, BridgeStep::Claim { kind, session_id })
}

fn on_bridge_thread(subject: BridgeSubject, thread: Option<BridgeThread>) -> (res: (
    BridgeStage,
    BridgeStep,
))
    ensures
        res == bridge_found(subject, thread),
{
    let has_topic = match thread {
        Some(thread) => thread.message_thread_id.is_some(),
        None => false,
    };
    if !has_topic {
        return end_bridge(Ok(()));
    }
    match subject {
        BridgeSubject::Question { session_id } => (
            BridgeStage::Registering { session_id },
            BridgeStep::Register,
        ),
        BridgeSubject::Approval { session_id } => claim_bridge(BridgeKind::Approval, session_id),
        BridgeSubject::Plan => (BridgeStage::ReadingSession, BridgeStep::ReadSession),
    }
}

/// What follows from the session of a thread: without one, nothing is asked.
pub open spec fn bridge_session(session: Option<String>) -> (BridgeStage, BridgeStep) {
    if text::filled(text::opt_view(session)) is Some {
        bridge_claimed(BridgeKind::Plan, session->0)
    } else {
        bridge_ended(Ok(()))
    }
}

fn on_bridge_session(session: Option<String>) -> (res: (BridgeStage, BridgeStep))
    ensures
        res == bridge_session(session),
{
    let filled = text::trim_filled(text::as_deref(&session)).is_some();
    match session {
        Some(session_id) => if filled {
            claim_bridge(BridgeKind::Plan, session_id)
        } else {
            end_bridge(Ok(()))
        },
        None => end_bridge(Ok(())),
    }
}

/// The end of the bringing of a question.
pub open spec fn bridge_ended(outcome: Result<(), FlowError>) -> (BridgeStage, BridgeStep) {
    (BridgeStage::Finished, BridgeStep::Finish { outcome })
}

fn end_bridge(outcome: Result<(), FlowError>) -> (res: (BridgeStage, BridgeStep))
    ensures
        res == bridge_ended(outcome),
{
    (BridgeStage::Finished, BridgeStep::Finish { outcome })
}

/// What follows from an event.
pub open spec fn bridge_next(stage: BridgeStage, event: BridgeEvent) -> (BridgeStage, BridgeStep) {
    match (stage, event) {
        (BridgeStage::Finished, _) => bridge_ended(Err(FlowError::OutOfTurn)),
        (BridgeStage::Committing, _) => bridge_ended(Ok(())),
        (_, BridgeEvent::Failed(reason)) => bridge_ended(Err(FlowError::Outside(reason))),
        (BridgeStage::FindingThread { subject }, BridgeEvent::Thread(thread)) => bridge_found(
            subject,
            thread,
        ),
        (BridgeStage::Registering { session_id }, BridgeEvent::Done) => bridge_claimed(
            BridgeKind::Question,
            session_id,
        ),
        (BridgeStage::ReadingSession, BridgeEvent::Session(session)) => bridge_session(session),
        (BridgeStage::Claiming { kind }, BridgeEvent::Claimed { claimed }) => if claimed {
            (BridgeStage::Sending { kind }, BridgeStep::Send { kind })
        } else {
            bridge_ended(Ok(()))
        },
        (BridgeStage::Sending { kind }, BridgeEvent::Sent { message_id }) => if kind == BridgeKind::Plan {
            (BridgeStage::Committing, BridgeStep::Commit { message_id: None })
        } else {
            (BridgeStage::Noting { message_id }, BridgeStep::Note { message_id })
        },
        (BridgeStage::Noting { message_id }, BridgeEvent::Done) => (
            BridgeStage::Committing,
            BridgeStep::Commit { message_id: Some(message_id) },
        ),
        _ => bridge_ended(Err(FlowError::OutOfTurn)),
    }
}

/// The next step of the bringing of a question.
pub fn advance_bridge(stage: BridgeStage, event: BridgeEvent) -> (res: (BridgeStage, BridgeStep))
    ensures
        res == bridge_next(stage, event),
{
    match (stage, event) {
        (BridgeStage::Finished, _) => end_bridge(Err(FlowError::OutOfTurn)),
        (BridgeStage::Committing, _) => end_bridge(Ok(())),
        (_, BridgeEvent::Failed(reason)) => end_bridge(Err(FlowError::Outside(reason))),
        (BridgeStage::FindingThread { subject }, BridgeEvent::Thread(thread)) => on_bridge_thread(
            subject,
            thread,
        ),
        (BridgeStage::Registering { session_id }, BridgeEvent::Done) => claim_bridge(
            BridgeKind::Question,
            session_id,
        ),
        (BridgeStage::ReadingSession, BridgeEvent::Session(session)) => on_bridge_session(session),
        (BridgeStage::Claiming { kind }, BridgeEvent::Claimed { claimed }) => if claimed {
            (BridgeStage::Sending { kind }, BridgeStep::Send { kind })
        } else {
            end_bridge(Ok(()))
        },
        (BridgeStage::Sending { kind }, BridgeEvent::Sent { message_id }) => if kind == BridgeKind::Plan {
            (BridgeStage::Committing, BridgeStep::Commit { message_id: None })
        } else {
            (BridgeStage::Noting { message_id }, BridgeStep::Note { message_id })
        },
        (BridgeStage::Noting { message_id }, BridgeEvent::Done) => (
            BridgeStage::Committing,
            BridgeStep::Commit { message_id: Some(message_id) },
        ),
        _ => end_bridge(Err(FlowError::OutOfTurn)),
    }
}

/// How many steps the bringing of a question can still take.
pub open spec fn bridge_steps_left(stage: BridgeStage) -> nat {
    match stage {
        BridgeStage::FindingThread { .. } => 6,
        BridgeStage::Registering { .. } => 5,
        BridgeStage::ReadingSession => 5,
        BridgeStage::Claiming { .. } => 4,
        BridgeStage::Sending { .. } => 3,
        BridgeStage::Noting { .. } => 2,
        BridgeStage::Committing => 1,
        BridgeStage::Finished => 0,
    }
}

/// Whatever comes of its steps, the bringing of a question ends.
pub proof fn law_bridge_ends(stage: BridgeStage, event: BridgeEvent)
    ensures
        bridge_next(stage, event).1 is Finish <==> bridge_next(stage, event).0 is Finished,
        stage !is Finished ==> bridge_steps_left(bridge_next(stage, event).0) < bridge_steps_left(stage),
        stage is Finished ==> bridge_next(stage, event).0 is Finished,
{
}

/// Whether a thread with a topic was found.
pub open spec fn has_topic(event: BridgeEvent) -> bool {
    match event {
        BridgeEvent::Thread(Some(thread)) => thread.message_thread_id is Some,
        _ => false,
    }
}

/// A question is shown only if its delivery was claimed, and only in a thread with a topic.
pub proof fn law_questions_are_shown_once(stage: BridgeStage, event: BridgeEvent)
    ensures
        bridge_next(stage, event).1 is Send ==> stage is Claiming && event == (
        BridgeEvent::Claimed { claimed: true }),
        bridge_next(stage, event).1 is Claim ==> stage is Registering || stage is ReadingSession || (
        stage is FindingThread && has_topic(event)),
        bridge_next(stage, event).0 is Registering || bridge_next(stage, event).0 is ReadingSession
            ==> stage is FindingThread && has_topic(event),
{
}

/// What is brought is claimed for the session that asks: for the one of the request, or, where a
/// plan is asked about, for the one that the thread is bound to.
pub proof fn law_the_asking_session_claims(
    session_id: String,
    thread: Option<BridgeThread>,
    stage: BridgeStage,
    event: BridgeEvent,
)
    ensures
        bridge_next(
            BridgeStage::FindingThread { subject: BridgeSubject::Question { session_id } },
            BridgeEvent::Thread(thread),
        ).0 matches BridgeStage::Registering { session_id: asking } ==> asking == session_id,
        bridge_next(
            BridgeStage::FindingThread { subject: BridgeSubject::Approval { session_id } },
            BridgeEvent::Thread(thread),
        ).1 matches BridgeStep::Claim { session_id: asking, .. } ==> asking == session_id,
        bridge_next(stage, event).1 matches BridgeStep::Claim { kind, session_id: asking } ==> match kind {
            BridgeKind::Question => stage == (BridgeStage::Registering { session_id: asking }),
            BridgeKind::Approval => stage == (BridgeStage::FindingThread {
                subject: BridgeSubject::Approval { session_id: asking },
            }),
            BridgeKind::Plan => stage is ReadingSession && event == BridgeEvent::Session(
                Some(asking),
            ),
        },
{
}

/// The message of an approval.
#[derive(Debug)]
pub struct ApprovalPrompt {
    pub thread_key: String,
    pub message_id: i32,
}

/// A message that shows a question.
#[derive(Debug, Clone, Copy, PartialEq, Eq, Structural)]
pub struct QuestionPrompt {
    pub chat_id: i64,
    pub message_id: Option<i32>,
}

/// How far the closing of a question has come.
#[derive(Debug)]
pub enum ResolveStage {
    Resolving { approval: Option<ApprovalPrompt> },
    EditingQuestion { approval: Option<ApprovalPrompt> },
    FindingThread { message_id: i32 },
    EditingApproval,
    Finished,
}

/// What came of a step.
#[derive(Debug)]
pub enum ResolveEvent {
    Done,
    /// The question that was answered, where one waited.
    Question(Option<QuestionPrompt>),
    /// The chat of the thread of the approval, where the thread is active.
    Thread(Option<i64>),
    Failed(String),
}

/// What is to be done next.
#[derive(Debug)]
pub enum ResolveStep {
    /// Take the question off those that wait.
    Resolve,
    EditQuestion { chat_id: i64, message_id: i32 },
    FindThread { thread_key: String },
    EditApproval { chat_id: i64, message_id: i32 },
    Finish { outcome: Result<(), FlowError> },
}

/// The first step of the closing of a question.
pub fn begin_resolve(approval: Option<ApprovalPrompt>) -> (res: (ResolveStage, ResolveStep))
    ensures
        res == (ResolveStage::Resolving { approval }, ResolveStep::Resolve),
{
    (ResolveStage::Resolving { approval }, ResolveStep::Resolve)
}

/// What follows for the approval.
pub open spec fn resolve_approval(approval: Option<ApprovalPrompt>) -> (ResolveStage, ResolveStep) {
    match approval {
        Some(approval) => (
            ResolveStage::FindingThread { message_id: approval.message_id },
            ResolveStep::FindThread { thread_key: approval.thread_key },
        ),
        None => resolve_ended(Ok(())),
    }
}

fn on_resolve_approval(approval: Option<ApprovalPrompt>) -> (res: (ResolveStage, ResolveStep))
    ensures
        res == resolve_approval(approval),
{
    match approval {
        Some(approval) => (
            ResolveStage::FindingThread { message_id: approval.message_id },
            ResolveStep::FindThread { thread_key: approval.thread_key },
        ),
        None => end_resolve(Ok(())),
    }
}

/// What follows from the question that was answered.
pub open spec fn resolve_question(
    approval: Option<ApprovalPrompt>,
    question: Option<QuestionPrompt>,
) -> (ResolveStage, ResolveStep) {
    match question {
        Some(QuestionPrompt { chat_id, message_id: Some(message_id) }) => (
            ResolveStage::EditingQuestion { approval },
            ResolveStep::EditQuestion { chat_id, message_id },
        ),
        _ => resolve_approval(approval),
    }
}

fn on_resolve_question(approval: Option<ApprovalPrompt>, question: Option<QuestionPrompt>) -> (res: (
    ResolveStage,
    ResolveStep,
))
    ensures
        res == resolve_question(approval, question),
{
    match question {
        Some(QuestionPrompt { chat_id, message_id: Some(message_id) }) => (
            ResolveStage::EditingQuestion { approval },
            ResolveStep::EditQuestion { chat_id, message_id },
        ),
        _ => on_resolve_approval(approval),
    }
}

/// The end of the closing of a question.
pub open spec fn resolve_ended(outcome: Result<(), FlowError>) -> (ResolveStage, ResolveStep) {
    (ResolveStage::Finished, ResolveStep::Finish { outcome })
}

fn end_resolve(outcome: Result<(), FlowError>) -> (res: (ResolveStage, ResolveStep))
    ensures
        res == resolve_ended(outcome),
{
    (ResolveStage::Finished, ResolveStep::Finish { outcome })
}

/// What follows from an event.
pub open spec fn resolve_next(stage: ResolveStage, event: ResolveEvent) -> (ResolveStage, ResolveStep) {
    match (stage, event) {
        (ResolveStage::Finished, _) => resolve_ended(Err(FlowError::OutOfTurn)),
        (ResolveStage::EditingQuestion { approval }, _) => resolve_approval(approval),
        (ResolveStage::EditingApproval, _) => resolve_ended(Ok(())),
        (_, ResolveEvent::Failed(reason)) => resolve_ended(Err(FlowError::Outside(reason))),
        (ResolveStage::Resolving { approval }, ResolveEvent::Question(question)) => resolve_question(
            approval,
            question,
        ),
        (ResolveStage::FindingThread { message_id }, ResolveEvent::Thread(Some(chat_id))) => (
            ResolveStage::EditingApproval,
            ResolveStep::EditApproval { chat_id, message_id },
        ),
        (ResolveStage::FindingThread { .. }, ResolveEvent::Thread(None)) => resolve_ended(Ok(())),
        _ => resolve_ended(Err(FlowError::OutOfTurn)),
    }
}

/// The next step of the closing of a question.
pub fn advance_resolve(stage: ResolveStage, event: ResolveEvent) -> (res: (ResolveStage, ResolveStep))
    ensures
        res == resolve_next(stage, event),
{
    match (stage, event) {
        (ResolveStage::Finished, _) => end_resolve(Err(FlowError::OutOfTurn)),
        (ResolveStage::EditingQuestion { approval }, _) => on_resolve_approval(approval),
        (ResolveStage::EditingApproval, _) => end_resolve(Ok(())),
        (_, ResolveEvent::Failed(reason)) => end_resolve(Err(FlowError::Outside(reason))),
        (ResolveStage::Resolving { approval }, ResolveEvent::Question(question)) => on_resolve_question(
            approval,
            question,
        ),
        (ResolveStage::FindingThread { message_id }, ResolveEvent::Thread(Some(chat_id))) => (
            ResolveStage::EditingApproval,
            ResolveStep::EditApproval { chat_id, message_id },
        ),
        (ResolveStage::FindingThread { .. }, ResolveEvent::Thread(None)) => end_resolve(Ok(())),
        _ => end_resolve(Err(FlowError::OutOfTurn)),
    }
}

/// How many steps the closing of a question can still take.
pub open spec fn resolve_steps_left(stage: ResolveStage) -> nat {
    match stage {
        ResolveStage::Resolving { .. } => 4,
        ResolveStage::EditingQuestion { .. } => 3,
        ResolveStage::FindingThread { .. } => 2,
        ResolveStage::EditingApproval => 1,
        ResolveStage::Finished => 0,
    }
}

/// Whatever comes of its steps, the closing of a question ends.
pub proof fn law_resolve_ends(stage: ResolveStage, event: ResolveEvent)
    ensures
        resolve_next(stage, event).1 is Finish <==> resolve_next(stage, event).0 is Finished,
        stage !is Finished ==> resolve_steps_left(resolve_next(stage, event).0) < resolve_steps_left(stage),
        stage is Finished ==> resolve_next(stage, event).0 is Finished,
{
}

/// What became of an answer of the user.
#[derive(Debug)]
pub enum AnswerOutcome {
    /// There is another question, which a message may show already.
    NextQuestion { snapshot: InteractivePromptSnapshot },
    /// All questions of a turn that was begun here are answered.
    CompletedHere { prompt_message_id: Option<i32>, response: ToolRequestUserInputResponse },
    /// All questions of a turn of a local client are answered.
    CompletedLocally {
        thread_key: String,
        request_id: i64,
        prompt_message_id: Option<i32>,
        response: ToolRequestUserInputResponse,
    },
}

/// What the message of a question says once all questions are answered.
pub fn questions_completed_text() -> (res: String)
    ensures
        res@ == telegram_runtime::prefixed(
            telegram_runtime::system_marker(TelegramSystemIntent::Info),
            "Questions completed."@,
        ),
{
    telegram_runtime::format_system_text(TelegramSystemIntent::Info, "Questions completed.")
}

/// How far the handling of an answer has come.
#[derive(Debug, Clone, Copy, PartialEq, Eq, Structural)]
pub enum AnswerStage {
    SendingPrompt,
    Responding { prompt_message_id: Option<i32> },
    Submitting { prompt_message_id: Option<i32> },
    Last,
    Finished,
}

/// What came of a step.
#[derive(Debug)]
pub enum AnswerEvent {
    Done,
    Sent { message_id: i32 },
    Failed(String),
}

/// What is to be done next.
#[derive(Debug)]
pub enum AnswerStep {
    /// Show the next question in the message that is there.
    EditPrompt { message_id: i32, snapshot: InteractivePromptSnapshot },
    /// Show the next question in a message of its own.
    SendPrompt { snapshot: InteractivePromptSnapshot },
    /// Remember which message shows the question.
    NotePrompt { message_id: i32 },
    /// Hand the answers to the turn that waits for them.
    Respond { response: ToolRequestUserInputResponse },
    /// Hand the answers to the local client.
    Submit { thread_key: String, request_id: i64, response: ToolRequestUserInputResponse },
    EditCompleted { message_id: i32 },
    Finish { outcome: Result<(), FlowError> },
}

/// The first step of the handling of an answer: the next question is shown, or the answers go to
/// who waits for them.
pub fn begin_answer(outcome: AnswerOutcome) -> (res: (AnswerStage, AnswerStep))
    ensures
        res == match outcome {
            AnswerOutcome::NextQuestion { snapshot } => match snapshot.prompt_message_id {
                Some(message_id) => (
                    AnswerStage::Last,
                    AnswerStep::EditPrompt { message_id, snapshot },
                ),
                None => (AnswerStage::SendingPrompt, AnswerStep::SendPrompt { snapshot }),
            },
            AnswerOutcome::CompletedHere { prompt_message_id, response } => (
                AnswerStage::Responding { prompt_message_id },
                AnswerStep::Respond { response },
            ),
            AnswerOutcome::CompletedLocally {
                thread_key,
                request_id,
                prompt_message_id,
                response,
            } => (
                AnswerStage::Submitting { prompt_message_id },
                AnswerStep::Submit { thread_key, request_id, response },
            ),
        },
{
    match outcome {
        AnswerOutcome::NextQuestion { snapshot } => match snapshot.prompt_message_id {
            Some(message_id) => (
                AnswerStage::Last,
                AnswerStep::EditPrompt { message_id, snapshot },
            ),
            None => (AnswerStage::SendingPrompt, AnswerStep::SendPrompt { snapshot }),
        },
        AnswerOutcome::CompletedHere { prompt_message_id, response } => (
            AnswerStage::Responding { prompt_message_id },
            AnswerStep::Respond { response },
        ),
        AnswerOutcome::CompletedLocally {
            thread_key,
            request_id,
            prompt_message_id,
            response,
        } => (
            AnswerStage::Submitting { prompt_message_id },
            AnswerStep::Submit { thread_key, request_id, response },
        ),
    }
}

/// What follows once the answers are handed on.
pub open spec fn answer_closed(prompt_message_id: Option<i32>) -> (AnswerStage, AnswerStep) {
    match prompt_message_id {
        Some(message_id) => (AnswerStage::Last, AnswerStep::EditCompleted { message_id }),
        None => answer_ended(Ok(())),
    }
}

fn close_answer(prompt_message_id: Option<i32>) -> (res: (AnswerStage, AnswerStep))
    ensures
        res == answer_closed(prompt_message_id),
{
    match prompt_message_id {
        Some(message_id) => (AnswerStage::Last, AnswerStep::EditCompleted { message_id }),
        None => end_answer(Ok(())),
    }
}

/// The end of the handling of an answer.
pub open spec fn answer_ended(outcome: Result<(), FlowError>) -> (AnswerStage, AnswerStep) {
    (AnswerStage::Finished, AnswerStep::Finish { outcome })
}

fn end_answer(outcome: Result<(), FlowError>) -> (res: (AnswerStage, AnswerStep))
    ensures
        res == answer_ended(outcome),
{
    (AnswerStage::Finished, AnswerStep::Finish { outcome })
}

/// What follows from an event.
pub open spec fn answer_next(stage: AnswerStage, event: AnswerEvent) -> (AnswerStage, AnswerStep) {
    match (stage, event) {
        (AnswerStage::Finished, _) => answer_ended(Err(FlowError::OutOfTurn)),
        (AnswerStage::Responding { prompt_message_id }, _) => answer_closed(prompt_message_id),
        (_, AnswerEvent::Failed(reason)) => answer_ended(Err(FlowError::Outside(reason))),
        (AnswerStage::SendingPrompt, AnswerEvent::Sent { message_id }) => (
            AnswerStage::Last,
            AnswerStep::NotePrompt { message_id },
        ),
        (AnswerStage::Submitting { prompt_message_id }, AnswerEvent::Done) => answer_closed(
            prompt_message_id,
        ),
        (AnswerStage::Last, AnswerEvent::Done) => answer_ended(Ok(())),
        _ => answer_ended(Err(FlowError::OutOfTurn)),
    }
}

/// The next step of the handling of an answer.
pub fn advance_answer(stage: AnswerStage, event: AnswerEvent) -> (res: (AnswerStage, AnswerStep))
    ensures
        res == answer_next(stage, event),
{
    match (stage, event) {
        (AnswerStage::Finished, _) => end_answer(Err(FlowError::OutOfTurn)),
        (AnswerStage::Responding { prompt_message_id }, _) => close_answer(prompt_message_id),
        (_, AnswerEvent::Failed(reason)) => end_answer(Err(FlowError::Outside(reason))),
        (AnswerStage::SendingPrompt, AnswerEvent::Sent { message_id }) => (
            AnswerStage::Last,
            AnswerStep::NotePrompt { message_id },
        ),
        (AnswerStage::Submitting { prompt_message_id }, AnswerEvent::Done) => close_answer(
            prompt_message_id,
        ),
        (AnswerStage::Last, AnswerEvent::Done) => end_answer(Ok(())),
        _ => end_answer(Err(FlowError::OutOfTurn)),
    }
}

/// How many steps the handling of an answer can still take.
pub open spec fn answer_steps_left(stage: AnswerStage) -> nat {
    match stage {
        AnswerStage::SendingPrompt => 2,
        AnswerStage::Responding { .. } => 2,
        AnswerStage::Submitting { .. } => 2,
        AnswerStage::Last => 1,
        AnswerStage::Finished => 0,
    }
}

/// Whatever comes of its steps, the handling of an answer ends.
pub proof fn law_answer_ends(stage: AnswerStage, event: AnswerEvent)
    ensures
        answer_next(stage, event).1 is Finish <==> answer_next(stage, event).0 is Finished,
        stage !is Finished ==> answer_steps_left(answer_next(stage, event).0) < answer_steps_left(stage),
        stage is Finished ==> answer_next(stage, event).0 is Finished,
{
}

/// Once a delivery is claimed, what was claimed is what is sent. Which message shows a question or an
/// approval is remembered before the delivery is put on record with that message; the question about
/// a plan has no message to remember. What someone else claimed is not sent.
pub proof fn law_claimed_questions_are_sent_and_remembered(
    kind: BridgeKind,
    session_id: String,
    message_id: i32,
    reason: String,
)
    ensures
        ({
            let sending = bridge_next(
                BridgeStage::Claiming { kind },
                BridgeEvent::Claimed { claimed: true },
            );
            let sent = bridge_next(sending.0, BridgeEvent::Sent { message_id });
            let noted = bridge_next(sent.0, BridgeEvent::Done);
            &&& sending.1 == (BridgeStep::Send { kind })
            &&& bridge_next(
                BridgeStage::Claiming { kind },
                BridgeEvent::Claimed { claimed: false },
            ).1 == (BridgeStep::Finish { outcome: Ok(()) })
            &&& kind == BridgeKind::Plan ==> sent.1 == (BridgeStep::Commit { message_id: None })
            &&& kind != BridgeKind::Plan ==> sent.1 == (BridgeStep::Note { message_id }) && noted.1
                == (BridgeStep::Commit { message_id: Some(message_id) })
            &&& bridge_next(sending.0, BridgeEvent::Failed(reason)).1 == (BridgeStep::Finish {
                outcome: Err(FlowError::Outside(reason)),
            })
        }),
{
}

/// In a thread with a topic a question waits for its answer before it is claimed, an approval is
/// claimed at once, and for a plan the session of the thread is looked up; each is claimed as what it
/// is.
pub proof fn law_subjects_are_claimed_as_what_they_are(session_id: String, thread: BridgeThread)
    requires
        thread.message_thread_id is Some,
    ensures
        ({
            let event = BridgeEvent::Thread(Some(thread));
            let question = bridge_next(
                BridgeStage::FindingThread { subject: BridgeSubject::Question { session_id } },
                event,
            );
            let approval = bridge_next(
                BridgeStage::FindingThread { subject: BridgeSubject::Approval { session_id } },
                event,
            );
            let plan = bridge_next(
                BridgeStage::FindingThread { subject: BridgeSubject::Plan },
                event,
            );
            &&& question.1 is Register
            &&& bridge_next(question.0, BridgeEvent::Done).1 == (BridgeStep::Claim {
                kind: BridgeKind::Question,
                session_id,
            })
            &&& approval.1 == (BridgeStep::Claim { kind: BridgeKind::Approval, session_id })
            &&& plan.1 is ReadSession
            &&& !text::is_blank(session_id@) ==> bridge_next(
                plan.0,
                BridgeEvent::Session(Some(session_id)),
            ).1 == (BridgeStep::Claim { kind: BridgeKind::Plan, session_id })
            &&& text::is_blank(session_id@) ==> bridge_next(
                plan.0,
                BridgeEvent::Session(Some(session_id)),
            ).1 == (BridgeStep::Finish { outcome: Ok(()) })
            &&& bridge_next(plan.0, BridgeEvent::Session(None)).1 == (BridgeStep::Finish {
                outcome: Ok(()),
            })
        }),
{
}

/// Whatever is asked, nothing is brought where no active thread with a topic is found.
pub proof fn law_questions_without_a_topic_are_not_brought(
    subject: BridgeSubject,
    thread: BridgeThread,
)
    requires
        thread.message_thread_id is None,
    ensures
        bridge_next(
            BridgeStage::FindingThread { subject },
            BridgeEvent::Thread(None),
        ).1 == (BridgeStep::Finish { outcome: Ok(()) }),
        bridge_next(
            BridgeStage::FindingThread { subject },
            BridgeEvent::Thread(Some(thread)),
        ).1 == (BridgeStep::Finish { outcome: Ok(()) }),
{
}

/// A question that was answered is closed in the message that shows it, and an approval in its own
/// message, in the chat of its thread. Both are closed where both are shown, whatever comes of the
/// first.
pub proof fn law_resolved_questions_are_closed_where_shown(
    approval: ApprovalPrompt,
    chat_id: i64,
    message_id: i32,
    approval_chat: i64,
    event: ResolveEvent,
)
    ensures
        ({
            let open = ResolveStage::Resolving { approval: Some(approval) };
            let shown = ResolveEvent::Question(
                Some(QuestionPrompt { chat_id, message_id: Some(message_id) }),
            );
            let edited = resolve_next(open, shown);
            let looked = resolve_next(edited.0, event);
            let none = resolve_next(open, ResolveEvent::Question(None));
            let unshown = resolve_next(
                open,
                ResolveEvent::Question(Some(QuestionPrompt { chat_id, message_id: None })),
            );
            &&& edited.1 == (ResolveStep::EditQuestion { chat_id, message_id })
            &&& looked.1 == (ResolveStep::FindThread { thread_key: approval.thread_key })
            &&& resolve_next(looked.0, ResolveEvent::Thread(Some(approval_chat))).1 == (
            ResolveStep::EditApproval { chat_id: approval_chat, message_id: approval.message_id })
            &&& resolve_next(looked.0, ResolveEvent::Thread(None)).1 == (ResolveStep::Finish {
                outcome: Ok(()),
            })
            &&& none == looked
            &&& unshown == looked
            &&& resolve_next(ResolveStage::Resolving { approval: None }, shown).1 == (
            ResolveStep::EditQuestion { chat_id, message_id })
            &&& resolve_next(
                resolve_next(ResolveStage::Resolving { approval: None }, shown).0,
                event,
            ).1 == (ResolveStep::Finish { outcome: Ok(()) })
        }),
{
}

/// Behind the last answer the message of the questions is closed, where there is one: also where the
/// turn that waited for the answers is gone, but not where a local client did not get them.
pub proof fn law_answered_questions_are_closed(message_id: i32, reason: String)
    ensures
        answer_next(
            AnswerStage::Responding { prompt_message_id: Some(message_id) },
            AnswerEvent::Failed(reason),
        ).1 == (AnswerStep::EditCompleted { message_id }),
        answer_next(
            AnswerStage::Responding { prompt_message_id: Some(message_id) },
            AnswerEvent::Done,
        ).1 == (AnswerStep::EditCompleted { message_id }),
        answer_next(
            AnswerStage::Submitting { prompt_message_id: Some(message_id) },
            AnswerEvent::Done,
        ).1 == (AnswerStep::EditCompleted { message_id }),
        answer_next(
            AnswerStage::Submitting { prompt_message_id: Some(message_id) },
            AnswerEvent::Failed(reason),
        ).1 == (AnswerStep::Finish { outcome: Err(FlowError::Outside(reason)) }),
        answer_next(AnswerStage::Submitting { prompt_message_id: None }, AnswerEvent::Done).1 == (
        AnswerStep::Finish { outcome: Ok(()) }),
        answer_next(AnswerStage::SendingPrompt, AnswerEvent::Sent { message_id }).1 == (
        AnswerStep::NotePrompt { message_id }),
{
}

/// Nothing is taken that was not asked for: what has ended stays so, and an event of another step ends
/// it; a step that fails ends it for the reason of the failure.
pub proof fn law_the_bridge_takes_only_what_was_asked_for(
    brought: BridgeEvent,
    closed: ResolveEvent,
    answered: AnswerEvent,
    subject: BridgeSubject,
    approval: Option<ApprovalPrompt>,
    reason: String,
)
    ensures
        bridge_next(BridgeStage::Finished, brought).1 == (BridgeStep::Finish {
            outcome: Err(FlowError::OutOfTurn),
        }),
        brought !is Thread && brought !is Failed ==> bridge_next(
            BridgeStage::FindingThread { subject },
            brought,
        ).1 == (BridgeStep::Finish { outcome: Err(FlowError::OutOfTurn) }),
        bridge_next(BridgeStage::FindingThread { subject }, BridgeEvent::Failed(reason)).1 == (
        BridgeStep::Finish { outcome: Err(FlowError::Outside(reason)) }),
        bridge_next(BridgeStage::Committing, brought).1 == (BridgeStep::Finish { outcome: Ok(()) }),
        resolve_next(ResolveStage::Finished, closed).1 == (ResolveStep::Finish {
            outcome: Err(FlowError::OutOfTurn),
        }),
        closed !is Question && closed !is Failed ==> resolve_next(
            ResolveStage::Resolving { approval },
            closed,
        ).1 == (ResolveStep::Finish { outcome: Err(FlowError::OutOfTurn) }),
        resolve_next(ResolveStage::Resolving { approval }, ResolveEvent::Failed(reason)).1 == (
        ResolveStep::Finish { outcome: Err(FlowError::Outside(reason)) }),
        resolve_next(ResolveStage::EditingApproval, closed).1 == (ResolveStep::Finish {
            outcome: Ok(()),
        }),
        answer_next(AnswerStage::Finished, answered).1 == (AnswerStep::Finish {
            outcome: Err(FlowError::OutOfTurn),
        }),
        answer_next(AnswerStage::Last, AnswerEvent::Done).1 == (AnswerStep::Finish {
            outcome: Ok(()),
        }),
        answered is Sent ==> answer_next(AnswerStage::Last, answered).1 == (AnswerStep::Finish {
            outcome: Err(FlowError::OutOfTurn),
        }),
{
}

/// A question that asks for a secret is not brought into Telegram, and every other is, for the session
/// that asks; a plan is asked about only behind a turn in plan mode that made one.
pub proof fn law_secrets_are_not_brought(
    request: RuntimeInteractionRequest,
    brought: (BridgeStage, BridgeStep),
    summary: TurnCompletionSummary,
    asked: (BridgeStage, BridgeStep),
    i: int,
)
    requires
        call_ensures(begin_question, (&request,), brought),
        call_ensures(begin_plan_question, (&summary,), asked),
    ensures
        0 <= i < request.params.questions@.len() && request.params.questions@[i].is_secret
            ==> brought.1 == (BridgeStep::Finish { outcome: Ok(()) }),
        (forall|k: int|
            0 <= k < request.params.questions@.len() ==> !(
            #[trigger] request.params.questions@[k]).is_secret) ==> brought.1 is FindThread
            && brought.0 == (BridgeStage::FindingThread {
            subject: BridgeSubject::Question { session_id: request.params.thread_id },
        }),
        asked.1 is FindThread <==> summary.collaboration_mode == CollaborationMode::Plan
            && summary.has_plan,
        asked.1 !is FindThread ==> asked.1 == (BridgeStep::Finish { outcome: Ok(()) }),
{
}

} // verus!
