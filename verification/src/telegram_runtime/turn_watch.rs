//! What is done while a turn runs: with the events that it brings, and with its questions.
use vstd::prelude::*;
use vstd::string::*;

use crate::interactive;
use crate::interactive::ToolRequestUserInputQuestion;
use crate::repository::TranscriptMirrorEntry;
use crate::telegram_runtime::preview::CodexThreadEvent;
use crate::text;

verus! {

broadcast use vstd::string::group_string_axioms;

/// Something to be done about an event.
#[derive(Debug)]
pub enum WatchAction {
    /// Put on record that the turn has started.
    RecordStart { turn_id: String },
    /// Move the delivery of the prompt over to the turn.
    PromoteEcho { turn_id: String },
    /// Let the preview show the event.
    ShowEvent,
    /// Let the preview show the entry.
    ShowEntry { entry: TranscriptMirrorEntry },
    /// Put the entry into the transcript.
    AppendEntry { entry: TranscriptMirrorEntry },
}

/// The turn that an event starts, where it says which.
pub open spec fn started_turn(event: CodexThreadEvent) -> Option<String> {
    match event {
        CodexThreadEvent::TurnStarted { turn_id } => turn_id,
        _ => None,
    }
}

/// The turn that runs behind an event.
pub open spec fn turn_behind(turn_id: Option<String>, event: CodexThreadEvent) -> Option<String> {
    match started_turn(event) {
        Some(started) => Some(started),
        None => turn_id,
    }
}

/// What is done about the start of a turn.
pub open spec fn start_actions(event: CodexThreadEvent) -> Seq<WatchAction> {
    match started_turn(event) {
        Some(turn_id) => seq![
            WatchAction::RecordStart { turn_id },
            WatchAction::PromoteEcho { turn_id },
        ],
        None => Seq::empty(),
    }
}

/// What is done about the entry that an event makes, where it makes one: it gets the id of the
/// turn that runs.
pub open spec fn entry_actions(
    turn_id: Option<String>,
    entry: Option<TranscriptMirrorEntry>,
) -> Seq<WatchAction> {
    match entry {
        Some(made) => {
            let entry = TranscriptMirrorEntry { turn_id, ..made };
            seq![WatchAction::ShowEntry { entry }, WatchAction::AppendEntry { entry }]
        },
        None => Seq::empty(),
    }
}

/// What is done about an event of a turn, in order.
pub open spec fn watch_actions(
    turn_id: Option<String>,
    event: CodexThreadEvent,
    entry: Option<TranscriptMirrorEntry>,
) -> Seq<WatchAction> {
    start_actions(event) + seq![WatchAction::ShowEvent] + entry_actions(
        turn_behind(turn_id, event),
        entry,
    )
}

/// What is done about an event of a turn that analyses images, in order.
pub open spec fn image_watch_actions(event: CodexThreadEvent) -> Seq<WatchAction> {
    match started_turn(event) {
        Some(turn_id) => seq![WatchAction::RecordStart { turn_id }, WatchAction::ShowEvent],
        None => seq![WatchAction::ShowEvent],
    }
}

/// The turn that an event starts, where it says which.
fn started_by(event: &CodexThreadEvent) -> (res: Option<String>)
    ensures
        res == started_turn(*event),
{
    match event {
        CodexThreadEvent::TurnStarted { turn_id } => text::clone_opt(turn_id),
        _ => None,
    }
}

/// Takes an event of a turn, and the entry that it makes for the transcript, where it makes one:
/// the turn that runs now, and what is to be done.
pub fn watch_turn(
    turn_id: Option<String>,
    event: &CodexThreadEvent,
    entry: Option<TranscriptMirrorEntry>,
) -> (res: (Option<String>, Vec<WatchAction>))
    ensures
        res.0 == turn_behind(turn_id, *event),
        res.1@ == watch_actions(turn_id, *event, entry),
{
    let started = started_by(event);
    let mut actions: Vec<WatchAction> = Vec::new();
    let running = match started {
        Some(id) => {
            actions.push(WatchAction::RecordStart { turn_id: id.clone() });
            actions.push(WatchAction::PromoteEcho { turn_id: id.clone() });
            Some(id)
        },
        None => turn_id,
    };
    actions.push(WatchAction::ShowEvent);
    match entry {
        Some(made) => {
            let shown = TranscriptMirrorEntry {
                timestamp: made.timestamp.clone(),
                session_id: made.session_id.clone(),
                turn_id: text::clone_opt(&running),
                origin: made.origin,
                role: made.role,
                delivery: made.delivery,
                phase: made.phase,
                text: made.text.clone(),
            };
            actions.push(WatchAction::ShowEntry { entry: shown });
            let kept = TranscriptMirrorEntry { turn_id: text::clone_opt(&running), ..made };
            actions.push(WatchAction::AppendEntry { entry: kept });
        },
        None => {},
    }
    proof {
        assert(actions@ =~= watch_actions(turn_id, *event, entry));
    }
    (running, actions)
}

/// Takes an event of a turn that analyses images: what is to be done.
pub fn watch_image_turn(event: &CodexThreadEvent) -> (res: Vec<WatchAction>)
    ensures
        res@ == image_watch_actions(*event),
{
    let mut actions: Vec<WatchAction> = Vec::new();
    match started_by(event) {
        Some(turn_id) => actions.push(WatchAction::RecordStart { turn_id }),
        None => {},
    }
    actions.push(WatchAction::ShowEvent);
    actions
}

/// The turn that runs behind some events, one after the other.
pub open spec fn turn_behind_all(
    turn_id: Option<String>,
    events: Seq<CodexThreadEvent>,
) -> Option<String>
    decreases events.len(),
{
    if events.len() == 0 {
        turn_id
    } else {
        turn_behind(turn_behind_all(turn_id, events.drop_last()), events.last())
    }
}

/// The id of a turn, once known, is not forgotten: it is that of the last turn that an event said
/// to have started.
pub proof fn law_turn_ids_are_kept(turn_id: Option<String>, events: Seq<CodexThreadEvent>)
    ensures
        turn_id is Some ==> turn_behind_all(turn_id, events) is Some,
        (forall|i: int| 0 <= i < events.len() ==> started_turn(#[trigger] events[i]) is None)
            ==> turn_behind_all(turn_id, events) == turn_id,
        forall|last: int|
            #![trigger events[last]]
            0 <= last < events.len() && started_turn(events[last]) is Some && (forall|i: int|
                last < i < events.len() ==> started_turn(#[trigger] events[i]) is None)
                ==> turn_behind_all(turn_id, events) == started_turn(events[last]),
    decreases events.len(),
{
    if events.len() > 0 {
        let before = events.drop_last();
        law_turn_ids_are_kept(turn_id, before);
        assert(forall|i: int| 0 <= i < before.len() ==> before[i] == events[i]);
        if (forall|i: int| 0 <= i < events.len() ==> started_turn(#[trigger] events[i]) is None) {
            assert(started_turn(events[events.len() - 1]) is None);
            assert forall|i: int| 0 <= i < before.len() implies started_turn(
                #[trigger] before[i],
            ) is None by {
                assert(started_turn(events[i]) is None);
            }
        }
        assert forall|last: int|
            #![trigger events[last]]
            0 <= last < events.len() && started_turn(events[last]) is Some && (forall|i: int|
                last < i < events.len() ==> started_turn(
                    #[trigger] events[i],
                ) is None) implies turn_behind_all(turn_id, events) == started_turn(events[last]) by {
            if last < events.len() - 1 {
                assert(started_turn(events[events.len() - 1]) is None);
                assert(before[last] == events[last]);
                assert forall|i: int| last < i < before.len() implies started_turn(
                    #[trigger] before[i],
                ) is None by {
                    assert(started_turn(events[i]) is None);
                }
            }
        }
    }
}

/// An entry that goes into the transcript was shown before, and names the turn that runs.
pub proof fn law_entries_name_their_turn(
    turn_id: Option<String>,
    event: CodexThreadEvent,
    entry: Option<TranscriptMirrorEntry>,
)
    ensures
        forall|i: int|
            0 <= i < watch_actions(turn_id, event, entry).len() ==> ((
            #[trigger] watch_actions(turn_id, event, entry)[i]) matches WatchAction::AppendEntry {
                entry: kept,
            } ==> kept.turn_id == turn_behind(turn_id, event) && i > 0 && watch_actions(
                turn_id,
                event,
                entry,
            )[i - 1] == (WatchAction::ShowEntry { entry: kept })),
{
}

/// How far a question of a turn has come.
#[derive(Debug, Clone, Copy, PartialEq, Eq, Structural)]
pub enum TurnQuestionStage {
    Registering,
    Showing,
    Waiting,
    Finished,
}

/// What came of a step.
#[derive(Debug)]
pub enum TurnQuestionEvent {
    Done,
    Failed(String),
}

/// What a turn is told whose questions were put.
#[derive(Debug, Clone, Copy, PartialEq, Eq, Structural)]
pub enum TurnAnswer {
    /// The questions are left to others.
    Declined,
    /// The user has answered.
    Answered,
}

/// Why a question of a turn got no answer.
#[derive(Debug)]
pub enum TurnQuestionError {
    /// A step outside failed, for the reason given.
    Outside(String),
    /// The answer got lost.
    Dropped,
    /// Something was reported that was not asked for.
    OutOfTurn,
}

impl TurnQuestionError {
    /// The reason, in words.
    pub open spec fn message(self) -> Seq<char> {
        match self {
            TurnQuestionError::Outside(reason) => reason@,
            TurnQuestionError::Dropped => "request_user_input response dropped"@,
            TurnQuestionError::OutOfTurn => "a step was reported that was not asked for"@,
        }
    }

    /// The reason, in words.
    pub fn to_text(&self) -> (res: String)
        ensures
            res@ == self.message(),
    {
        match self {
            TurnQuestionError::Outside(reason) => reason.clone(),
            TurnQuestionError::Dropped => "request_user_input response dropped".to_owned(),
            TurnQuestionError::OutOfTurn => "a step was reported that was not asked for".to_owned(),
        }
    }
}

/// What is to be done next.
#[derive(Debug)]
pub enum TurnQuestionStep {
    /// Keep the questions, so that an answer finds them.
    Register,
    /// Show the first question to the user.
    ShowPrompt,
    AwaitAnswer,
    Finish { outcome: Result<TurnAnswer, TurnQuestionError> },
}

/// The end of a question.
pub open spec fn question_ended(outcome: Result<TurnAnswer, TurnQuestionError>) -> (
    TurnQuestionStage,
    TurnQuestionStep,
) {
    (TurnQuestionStage::Finished, TurnQuestionStep::Finish { outcome })
}

/// The first step of the questions of a turn: they are put to the user, unless one of them asks
/// for a secret.
pub open spec fn question_start(questions: Seq<ToolRequestUserInputQuestion>) -> (
    TurnQuestionStage,
    TurnQuestionStep,
) {
    if interactive::asks_secret(questions) {
        question_ended(Ok(TurnAnswer::Declined))
    } else {
        (TurnQuestionStage::Registering, TurnQuestionStep::Register)
    }
}

/// The first step of the questions of a turn.
pub fn begin_turn_question(questions: &Vec<ToolRequestUserInputQuestion>) -> (res: (
    TurnQuestionStage,
    TurnQuestionStep,
))
    ensures
        res == question_start(questions@),
{
    if interactive::has_secret_question(questions) {
        (
            TurnQuestionStage::Finished,
            TurnQuestionStep::Finish { outcome: Ok(TurnAnswer::Declined) },
        )
    } else {
        (TurnQuestionStage::Registering, TurnQuestionStep::Register)
    }
}

/// What follows from an event.
pub open spec fn question_next(stage: TurnQuestionStage, event: TurnQuestionEvent) -> (
    TurnQuestionStage,
    TurnQuestionStep,
) {
    match (stage, event) {
        (TurnQuestionStage::Finished, _) => question_ended(Err(TurnQuestionError::OutOfTurn)),
        (TurnQuestionStage::Waiting, TurnQuestionEvent::Failed(_)) => question_ended(
            Err(TurnQuestionError::Dropped),
        ),
        (_, TurnQuestionEvent::Failed(reason)) => question_ended(
            Err(TurnQuestionError::Outside(reason)),
        ),
        (TurnQuestionStage::Registering, TurnQuestionEvent::Done) => (
            TurnQuestionStage::Showing,
            TurnQuestionStep::ShowPrompt,
        ),
        (TurnQuestionStage::Showing, TurnQuestionEvent::Done) => (
            TurnQuestionStage::Waiting,
            TurnQuestionStep::AwaitAnswer,
        ),
        (TurnQuestionStage::Waiting, TurnQuestionEvent::Done) => question_ended(
            Ok(TurnAnswer::Answered),
        ),
    }
}

/// The next step of the questions of a turn.
pub fn advance_turn_question(stage: TurnQuestionStage, event: TurnQuestionEvent) -> (res: (
    TurnQuestionStage,
    TurnQuestionStep,
))
    ensures
        res == question_next(stage, event),
{
    let outcome = match (stage, event) {
        (TurnQuestionStage::Finished, _) => Err(TurnQuestionError::OutOfTurn),
        (TurnQuestionStage::Waiting, TurnQuestionEvent::Failed(_)) => Err(
            TurnQuestionError::Dropped,
        ),
        (_, TurnQuestionEvent::Failed(reason)) => Err(TurnQuestionError::Outside(reason)),
        (TurnQuestionStage::Registering, TurnQuestionEvent::Done) => {
            return (TurnQuestionStage::Showing, TurnQuestionStep::ShowPrompt);
        },
        (TurnQuestionStage::Showing, TurnQuestionEvent::Done) => {
            return (TurnQuestionStage::Waiting, TurnQuestionStep::AwaitAnswer);
        },
        (TurnQuestionStage::Waiting, TurnQuestionEvent::Done) => Ok(TurnAnswer::Answered),
    };
    (TurnQuestionStage::Finished, TurnQuestionStep::Finish { outcome })
}

/// How many steps a question can still take.
pub open spec fn question_steps_left(stage: TurnQuestionStage) -> nat {
    match stage {
        TurnQuestionStage::Registering => 3,
        TurnQuestionStage::Showing => 2,
        TurnQuestionStage::Waiting => 1,
        TurnQuestionStage::Finished => 0,
    }
}

/// Whatever comes of its steps, a question ends.
pub proof fn law_turn_question_ends(stage: TurnQuestionStage, event: TurnQuestionEvent)
    ensures
        question_next(stage, event).1 is Finish <==> question_next(stage, event).0 is Finished,
        stage !is Finished ==> question_steps_left(question_next(stage, event).0)
            < question_steps_left(stage),
{
}

/// Questions of a turn are put to the user exactly where none of them asks for a secret.
pub proof fn law_secrets_are_not_asked(questions: Seq<ToolRequestUserInputQuestion>)
    ensures
        question_start(questions).1 is Register <==> !interactive::asks_secret(questions),
        interactive::asks_secret(questions) ==> question_start(questions).1 == (
        TurnQuestionStep::Finish { outcome: Ok(TurnAnswer::Declined) }),
{
}

/// Every event of a turn is shown, once. The start of a turn that is named is put on record first,
/// and the delivery of the prompt moved over to it; an entry that the event makes is shown and then
/// kept. Nothing else is done.
pub proof fn law_every_event_is_shown(
    turn_id: Option<String>,
    event: CodexThreadEvent,
    entry: Option<TranscriptMirrorEntry>,
)
    ensures
        ({
            let actions = watch_actions(turn_id, event, entry);
            let named = event matches CodexThreadEvent::TurnStarted { turn_id: Some(_) };
            let first: int = if named {
                2
            } else {
                0
            };
            &&& actions.len() == first + 1 + if entry is Some {
                2int
            } else {
                0
            }
            &&& actions[first] is ShowEvent
            &&& event matches CodexThreadEvent::TurnStarted { turn_id: Some(started) } ==> actions[0]
                == (WatchAction::RecordStart { turn_id: started }) && actions[1] == (
            WatchAction::PromoteEcho { turn_id: started })
            &&& entry matches Some(made) ==> {
                &&& actions[first + 1] matches WatchAction::ShowEntry { entry: shown } && shown.text
                    == made.text && shown.session_id == made.session_id && shown.role == made.role
                    && shown.phase == made.phase && shown.delivery == made.delivery
                &&& actions[first + 2] matches WatchAction::AppendEntry { entry: kept } && kept.text
                    == made.text && kept.session_id == made.session_id && kept.role == made.role
                    && kept.phase == made.phase && kept.delivery == made.delivery
            }
        }),
        ({
            let actions = image_watch_actions(event);
            &&& actions.last() is ShowEvent
            &&& event matches CodexThreadEvent::TurnStarted { turn_id: Some(started) }
                ==> actions.len() == 2 && actions[0] == (WatchAction::RecordStart {
                turn_id: started,
            })
            &&& !(event matches CodexThreadEvent::TurnStarted { turn_id: Some(_) }) ==> actions.len()
                == 1
        }),
{
}

/// A question is kept before it is shown, and shown before its answer is awaited; an answer that
/// never comes is lost, and any other step that fails ends the question with its reason.
pub proof fn law_questions_are_kept_shown_and_awaited(reason: String)
    ensures
        question_next(TurnQuestionStage::Registering, TurnQuestionEvent::Done).1 is ShowPrompt,
        question_next(TurnQuestionStage::Showing, TurnQuestionEvent::Done).1 is AwaitAnswer,
        question_next(TurnQuestionStage::Waiting, TurnQuestionEvent::Done).1 == (
        TurnQuestionStep::Finish { outcome: Ok(TurnAnswer::Answered) }),
        question_next(TurnQuestionStage::Waiting, TurnQuestionEvent::Failed(reason)).1 == (
        TurnQuestionStep::Finish { outcome: Err(TurnQuestionError::Dropped) }),
        question_next(TurnQuestionStage::Registering, TurnQuestionEvent::Failed(reason)).1 == (
        TurnQuestionStep::Finish { outcome: Err(TurnQuestionError::Outside(reason)) }),
        question_next(TurnQuestionStage::Showing, TurnQuestionEvent::Failed(reason)).1 == (
        TurnQuestionStep::Finish { outcome: Err(TurnQuestionError::Outside(reason)) }),
{
}

/// A question of a turn is answered, or dropped where nobody could wait for the answer any longer;
/// where it could not be kept or shown, that is what went wrong.
pub proof fn law_unanswered_questions_are_dropped(reason: String, event: TurnQuestionEvent)
    ensures
        question_next(TurnQuestionStage::Waiting, TurnQuestionEvent::Done).1 == (
        TurnQuestionStep::Finish { outcome: Ok(TurnAnswer::Answered) }),
        question_next(TurnQuestionStage::Waiting, TurnQuestionEvent::Failed(reason)).1 == (
        TurnQuestionStep::Finish { outcome: Err(TurnQuestionError::Dropped) }),
        question_next(TurnQuestionStage::Registering, TurnQuestionEvent::Failed(reason)).1 == (
        TurnQuestionStep::Finish { outcome: Err(TurnQuestionError::Outside(reason)) }),
        question_next(TurnQuestionStage::Showing, TurnQuestionEvent::Failed(reason)).1 == (
        TurnQuestionStep::Finish { outcome: Err(TurnQuestionError::Outside(reason)) }),
        question_next(TurnQuestionStage::Finished, event).1 == (TurnQuestionStep::Finish {
            outcome: Err(TurnQuestionError::OutOfTurn),
        }),
        TurnQuestionError::Dropped.message() == "request_user_input response dropped"@,
        TurnQuestionError::Outside(reason).message() == reason@,
{
}

} // verus!
