//! What the runtime tells the front end about questions and finished turns.
use serde_json::Value;
use vstd::prelude::*;

use crate::collaboration_mode::CollaborationMode;
use crate::interactive::ToolRequestUserInputParams;
use crate::runtime_protocol::RuntimeInteractionKind;

verus! {

/// A request for input from the user.
#[derive(Debug, Clone)]
pub struct RuntimeInteractionRequest {
    pub thread_key: String,
    pub request_id: i64,
    pub params: ToolRequestUserInputParams,
}

/// A request that was answered.
#[derive(Debug)]
pub struct RuntimeInteractionResolved {
    pub thread_id: String,
    pub request_id: Value,
}

/// A turn that is complete.
#[derive(Debug, Clone)]
pub struct TurnCompletionSummary {
    pub thread_key: String,
    pub collaboration_mode: CollaborationMode,
    pub final_text: Option<String>,
    pub has_plan: bool,
}

/// Something that the front end should know.
#[derive(Debug)]
pub enum RuntimeInteractionEvent {
    RequestUserInput(RuntimeInteractionRequest),
    RequestResolved(RuntimeInteractionResolved),
    TurnCompleted(TurnCompletionSummary),
}

impl RuntimeInteractionEvent {
    /// The kind of the event.
    pub open spec fn kind_of(self) -> RuntimeInteractionKind {
        match self {
            RuntimeInteractionEvent::RequestUserInput(_) => RuntimeInteractionKind::RequestUserInput,
            RuntimeInteractionEvent::RequestResolved(_) => RuntimeInteractionKind::RequestResolved,
            RuntimeInteractionEvent::TurnCompleted(_) => RuntimeInteractionKind::TurnCompleted,
        }
    }

    /// The kind of the event.
    pub fn kind(&self) -> (res: RuntimeInteractionKind)
        ensures
            res == self.kind_of(),
    {
        match self {
            RuntimeInteractionEvent::RequestUserInput(_) => RuntimeInteractionKind::RequestUserInput,
            RuntimeInteractionEvent::RequestResolved(_) => RuntimeInteractionKind::RequestResolved,
            RuntimeInteractionEvent::TurnCompleted(_) => RuntimeInteractionKind::TurnCompleted,
        }
    }
}

impl TurnCompletionSummary {
    /// Whether the user is asked what becomes of a plan: only a turn in plan mode that has made
    /// one leads to the question.
    pub fn plan_follow_up_requested(&self) -> (res: bool)
        ensures
            res == (self.collaboration_mode == CollaborationMode::Plan && self.has_plan),
    {
        self.collaboration_mode == CollaborationMode::Plan && self.has_plan
    }
}

/// The kind of an event says what happened: a question, an answer, or the end of a turn.
pub proof fn law_kinds_say_what_happened(event: RuntimeInteractionEvent)
    ensures
        event.kind_of() == RuntimeInteractionKind::RequestUserInput <==> event is RequestUserInput,
        event.kind_of() == RuntimeInteractionKind::RequestResolved <==> event is RequestResolved,
        event.kind_of() == RuntimeInteractionKind::TurnCompleted <==> event is TurnCompleted,
{
}

} // verus!
