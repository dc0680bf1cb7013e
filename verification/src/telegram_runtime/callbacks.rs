//! Buttons: the data that they carry, and what is done when one is pressed.
use vstd::prelude::*;
use vstd::string::*;

use crate::numbers;
use crate::telegram_runtime;
use crate::telegram_runtime::interaction_bridge::AnswerOutcome;
use crate::telegram_runtime::TelegramSystemIntent;
use crate::text;

verus! {

broadcast use vstd::string::group_string_axioms;

pub const CALLBACK_REQUEST_USER_INPUT_OPTION: &'static str = "request_user_input_option";

pub const CALLBACK_PLAN_IMPLEMENT: &'static str = "plan_implement";

pub const CALLBACK_IMAGE_BATCH_ANALYZE: &'static str = "image_batch_analyze";

pub const CALLBACK_RESTORE_PICK: &'static str = "restore_pick";

pub const CALLBACK_RESTORE_PAGE: &'static str = "restore_page";

pub const CALLBACK_TUI_ADOPT_ACCEPT: &'static str = "tui_adopt_accept";

pub const CALLBACK_TUI_ADOPT_REJECT: &'static str = "tui_adopt_reject";

/// A button: what it says, and the data that comes back when it is pressed.
#[derive(Debug, Clone, PartialEq, Eq)]
pub struct Button {
    pub label: String,
    pub data: String,
}

/// The model of a button.
#[verifier::ext_equal]
pub struct ButtonModel {
    pub label: Seq<char>,
    pub data: Seq<char>,
}

impl View for Button {
    type V = ButtonModel;

    open spec fn view(&self) -> ButtonModel {
        ButtonModel { label: self.label@, data: self.data@ }
    }
}

/// The buttons below a message, in rows.
#[derive(Debug, Clone, PartialEq, Eq)]
pub struct Keyboard {
    pub rows: Vec<Vec<Button>>,
}

/// The model of a row.
pub open spec fn row_model(row: Seq<Button>) -> Seq<ButtonModel> {
    Seq::new(row.len(), |i: int| row[i]@)
}

impl View for Keyboard {
    type V = Seq<Seq<ButtonModel>>;

    open spec fn view(&self) -> Seq<Seq<ButtonModel>> {
        Seq::new(self.rows@.len(), |i: int| row_model(self.rows@[i]@))
    }
}

impl Keyboard {
    /// No buttons.
    pub fn new() -> (res: Self)
        ensures
            res@ == Seq::<Seq<ButtonModel>>::empty(),
    {
        let res = Keyboard { rows: Vec::new() };
        proof {
            assert(res@ =~= Seq::<Seq<ButtonModel>>::empty());
        }
        res
    }

    /// Adds a row of one button.
    pub fn push_button(&mut self, label: String, data: String)
        ensures
            final(self)@ == old(self)@.push(seq![ButtonModel { label: label@, data: data@ }]),
    {
        let ghost before = self@;
        let ghost shown = ButtonModel { label: label@, data: data@ };
        let mut row: Vec<Button> = Vec::new();
        row.push(Button { label, data });
        proof {
            assert(row_model(row@) =~= seq![shown]);
        }
        self.rows.push(row);
        proof {
            assert(self@ =~= before.push(seq![shown]));
        }
    }

    /// Adds a row.
    pub fn push_row(&mut self, row: Vec<Button>)
        ensures
            final(self)@ == old(self)@.push(row_model(row@)),
    {
        let ghost before = self@;
        self.rows.push(row);
        proof {
            assert(self@ =~= before.push(row_model(row@)));
        }
    }
}

/// The data of a button: the action and what it is about, with colons between them.
pub open spec fn button_data(parts: Seq<Seq<char>>) -> Seq<char> {
    text::joined(parts, seq![':'])
}

/// The data of a button: an action about one thing.
pub fn data_of_two(action: &str, about: &str) -> (res: String)
    ensures
        res@ == button_data(seq![action@, about@]),
{
    let res = text::concat3(action, ":", about);
    proof {
        let parts = seq![action@, about@];
        reveal_strlit(":");
        assert(":"@ =~= seq![':']);
        assert(parts.drop_last() =~= seq![action@]);
        reveal_with_fuel(text::joined, 3);
    }
    res
}

/// The data of a button: an action about two things.
pub fn data_of_three(action: &str, first: &str, second: &str) -> (res: String)
    ensures
        res@ == button_data(seq![action@, first@, second@]),
{
    let res = text::concat5(action, ":", first, ":", second);
    proof {
        let parts = seq![action@, first@, second@];
        reveal_strlit(":");
        assert(":"@ =~= seq![':']);
        assert(parts.drop_last() =~= seq![action@, first@]);
        assert(parts.drop_last().drop_last() =~= seq![action@]);
        reveal_with_fuel(text::joined, 4);
    }
    res
}

/// What becomes of a plan.
#[derive(Debug, Clone, Copy, PartialEq, Eq, Structural)]
pub enum PlanChoice {
    Yes,
    No,
    Unknown,
}

/// Which answer to a question was chosen.
#[derive(Debug, Clone, Copy, PartialEq, Eq, Structural)]
pub enum OptionChoice {
    Other,
    Index(usize),
    Invalid,
}

/// What a pressed button asks for.
#[derive(Debug, PartialEq, Eq)]
pub enum CallbackAction {
    PlanImplement { choice: PlanChoice },
    ChooseOption { request_id: Option<i64>, choice: OptionChoice },
    AnalyzeImages { batch_id: String },
    RestorePage { offset: usize },
    RestorePick { thread_key: String, offset: usize },
    AdoptTui { thread_key: String },
    RejectTui { thread_key: String },
    Unknown,
}

/// The model of what a pressed button asks for.
pub enum CallbackModel {
    PlanImplement { choice: PlanChoice },
    ChooseOption { request_id: Option<i64>, choice: OptionChoice },
    AnalyzeImages { batch_id: Seq<char> },
    RestorePage { offset: usize },
    RestorePick { thread_key: Seq<char>, offset: usize },
    AdoptTui { thread_key: Seq<char> },
    RejectTui { thread_key: Seq<char> },
    Unknown,
}

impl View for CallbackAction {
    type V = CallbackModel;

    open spec fn view(&self) -> CallbackModel {
        match *self {
            CallbackAction::PlanImplement { choice } => CallbackModel::PlanImplement { choice },
            CallbackAction::ChooseOption { request_id, choice } => {
                CallbackModel::ChooseOption { request_id, choice }
            },
            CallbackAction::AnalyzeImages { batch_id } => {
                CallbackModel::AnalyzeImages { batch_id: batch_id@ }
            },
            CallbackAction::RestorePage { offset } => CallbackModel::RestorePage { offset },
            CallbackAction::RestorePick { thread_key, offset } => {
                CallbackModel::RestorePick { thread_key: thread_key@, offset }
            },
            CallbackAction::AdoptTui { thread_key } => {
                CallbackModel::AdoptTui { thread_key: thread_key@ }
            },
            CallbackAction::RejectTui { thread_key } => {
                CallbackModel::RejectTui { thread_key: thread_key@ }
            },
            CallbackAction::Unknown => CallbackModel::Unknown,
        }
    }
}

/// A part of the data; empty where there is none.
pub open spec fn part_of(parts: Seq<Seq<char>>, i: int) -> Seq<char> {
    if 0 <= i < parts.len() {
        parts[i]
    } else {
        Seq::empty()
    }
}

/// A number in the data, where it is one that fits.
pub open spec fn count_of(part: Seq<char>) -> Option<usize> {
    match numbers::natural_of(part) {
        Some(n) => if n <= usize::MAX {
            Some(n as usize)
        } else {
            None
        },
        None => None,
    }
}

/// The name of a request in the data, where it is a number that fits.
pub open spec fn request_of(part: Seq<char>) -> Option<i64> {
    match numbers::integer_of(part) {
        Some(n) => if i64::MIN <= n <= i64::MAX {
            Some(n as i64)
        } else {
            None
        },
        None => None,
    }
}

/// Where a page starts; at the start where nothing else is said.
pub open spec fn offset_of(part: Seq<char>) -> usize {
    match count_of(part) {
        Some(n) => n,
        None => 0,
    }
}

/// What the data of a pressed button ask for.
pub open spec fn callback_of(data: Seq<char>) -> CallbackModel {
    let parts = text::pieces(data, ':');
    let action = part_of(parts, 0);
    if action == CALLBACK_PLAN_IMPLEMENT@ {
        CallbackModel::PlanImplement {
            choice: if part_of(parts, 1) == "yes"@ {
                PlanChoice::Yes
            } else if part_of(parts, 1) == "no"@ {
                PlanChoice::No
            } else {
                PlanChoice::Unknown
            },
        }
    } else if action == CALLBACK_REQUEST_USER_INPUT_OPTION@ {
        CallbackModel::ChooseOption {
            request_id: request_of(part_of(parts, 1)),
            choice: if part_of(parts, 2) == "other"@ {
                OptionChoice::Other
            } else {
                match count_of(part_of(parts, 2)) {
                    Some(index) => OptionChoice::Index(index),
                    None => OptionChoice::Invalid,
                }
            },
        }
    } else if action == CALLBACK_IMAGE_BATCH_ANALYZE@ {
        CallbackModel::AnalyzeImages { batch_id: part_of(parts, 1) }
    } else if action == CALLBACK_RESTORE_PAGE@ {
        CallbackModel::RestorePage { offset: offset_of(part_of(parts, 1)) }
    } else if action == CALLBACK_RESTORE_PICK@ {
        CallbackModel::RestorePick {
            thread_key: part_of(parts, 1),
            offset: offset_of(part_of(parts, 2)),
        }
    } else if action == CALLBACK_TUI_ADOPT_ACCEPT@ {
        CallbackModel::AdoptTui { thread_key: part_of(parts, 1) }
    } else if action == CALLBACK_TUI_ADOPT_REJECT@ {
        CallbackModel::RejectTui { thread_key: part_of(parts, 1) }
    } else {
        CallbackModel::Unknown
    }
}

/// A part of the data; empty where there is none.
fn take_part(parts: &Vec<String>, i: usize) -> (res: String)
    ensures
        res@ == part_of(text::views(parts@), i as int),
{
    if i < parts.len() {
        parts[i].clone()
    } else {
        String::new()
    }
}

/// Where a page starts.
fn take_offset(part: &str) -> (res: usize)
    ensures
        res == offset_of(part@),
{
    match numbers::parse_usize(part) {
        Some(n) => n,
        None => 0,
    }
}

/// What the data of a pressed button ask for.
pub fn parse_callback(data: &str) -> (res: CallbackAction)
    ensures
        res@ == callback_of(data@),
{
    let parts = text::split_at_char(data, ':');
    let action = take_part(&parts, 0);
    let first = take_part(&parts, 1);
    if text::same_text(action.as_str(), CALLBACK_PLAN_IMPLEMENT) {
        let choice = if text::same_text(first.as_str(), "yes") {
            PlanChoice::Yes
        } else if text::same_text(first.as_str(), "no") {
            PlanChoice::No
        } else {
            PlanChoice::Unknown
        };
        CallbackAction::PlanImplement { choice }
    } else if text::same_text(action.as_str(), CALLBACK_REQUEST_USER_INPUT_OPTION) {
        let second = take_part(&parts, 2);
        let choice = if text::same_text(second.as_str(), "other") {
            OptionChoice::Other
        } else {
            match numbers::parse_usize(second.as_str()) {
                Some(index) => OptionChoice::Index(index),
                None => OptionChoice::Invalid,
            }
        };
        CallbackAction::ChooseOption { request_id: numbers::parse_i64(first.as_str()), choice }
    } else if text::same_text(action.as_str(), CALLBACK_IMAGE_BATCH_ANALYZE) {
        CallbackAction::AnalyzeImages { batch_id: first }
    } else if text::same_text(action.as_str(), CALLBACK_RESTORE_PAGE) {
        CallbackAction::RestorePage { offset: take_offset(first.as_str()) }
    } else if text::same_text(action.as_str(), CALLBACK_RESTORE_PICK) {
        let second = take_part(&parts, 2);
        CallbackAction::RestorePick { thread_key: first, offset: take_offset(second.as_str()) }
    } else if text::same_text(action.as_str(), CALLBACK_TUI_ADOPT_ACCEPT) {
        CallbackAction::AdoptTui { thread_key: first }
    } else if text::same_text(action.as_str(), CALLBACK_TUI_ADOPT_REJECT) {
        CallbackAction::RejectTui { thread_key: first }
    } else {
        CallbackAction::Unknown
    }
}

/// What a message becomes when a button below it was pressed.
#[derive(Debug, Clone, Copy, PartialEq, Eq, Structural)]
pub enum CallbackNotice {
    ImplementingPlan,
    StayingInPlan,
    TuiAdopted,
    TuiRejected,
}

impl CallbackNotice {
    /// What the message says.
    pub open spec fn body(self) -> Seq<char> {
        match self {
            CallbackNotice::ImplementingPlan => "Implementing the plan in Default mode."@,
            CallbackNotice::StayingInPlan => "Staying in Plan mode."@,
            CallbackNotice::TuiAdopted => {
                "已採納 TUI session，後續 Telegram 對話將接續該 session。"@
            },
            CallbackNotice::TuiRejected => {
                "已保留原對話，TUI session 不會被採納為目前 Telegram session。"@
            },
        }
    }

    /// The message, with its marker.
    pub fn to_text(&self) -> (res: String)
        ensures
            res@ == telegram_runtime::prefixed(
                telegram_runtime::system_marker(TelegramSystemIntent::Info),
                self.body(),
            ),
    {
        let body = match self {
            CallbackNotice::ImplementingPlan => "Implementing the plan in Default mode.",
            CallbackNotice::StayingInPlan => "Staying in Plan mode.",
            CallbackNotice::TuiAdopted => {
                "已採納 TUI session，後續 Telegram 對話將接續該 session。"
            },
            CallbackNotice::TuiRejected => {
                "已保留原對話，TUI session 不會被採納為目前 Telegram session。"
            },
        };
        telegram_runtime::format_system_text(TelegramSystemIntent::Info, body)
    }
}

/// What is shown to the user who pressed a button in vain.
#[derive(Debug, Clone, Copy, PartialEq, Eq, Structural)]
pub enum CallbackAlert {
    OnlyInThread,
    NotPending,
    ThreadNotFound,
}

impl CallbackAlert {
    /// What is shown.
    pub fn to_text(&self) -> (res: &'static str)
        ensures
            res@ == match *self {
                CallbackAlert::OnlyInThread => "This button only works inside a thread."@,
                CallbackAlert::NotPending => "Question is no longer pending."@,
                CallbackAlert::ThreadNotFound => "Thread not found."@,
            },
    {
        match self {
            CallbackAlert::OnlyInThread => "This button only works inside a thread.",
            CallbackAlert::NotPending => "Question is no longer pending.",
            CallbackAlert::ThreadNotFound => "Thread not found.",
        }
    }
}

/// Why a pressed button led to nothing.
#[derive(Debug, Clone, PartialEq, Eq)]
pub enum CallbackError {
    InvalidRequest,
    InvalidOption,
    /// A step outside failed, for the reason given.
    Outside(String),
    /// A step was reported that was not asked for.
    OutOfTurn,
}

impl CallbackError {
    /// What went wrong, in words.
    pub fn to_text(&self) -> (res: String)
        ensures
            res@ == match *self {
                CallbackError::InvalidRequest => "invalid request_user_input request id"@,
                CallbackError::InvalidOption => "invalid request_user_input option index"@,
                CallbackError::Outside(reason) => reason@,
                CallbackError::OutOfTurn => "unexpected step of a callback"@,
            },
    {
        match self {
            CallbackError::InvalidRequest => "invalid request_user_input request id".to_owned(),
            CallbackError::InvalidOption => "invalid request_user_input option index".to_owned(),
            CallbackError::Outside(reason) => reason.clone(),
            CallbackError::OutOfTurn => "unexpected step of a callback".to_owned(),
        }
    }
}

/// How far the handling of a pressed button has come.
#[derive(Debug)]
pub enum CallbackStage {
    LaunchPlan,
    Edit,
    ReadPrompt { request_id: i64, choice: OptionChoice },
    ChooseOption,
    ApplyAnswer,
    ShowPage,
    FindAdopted { thread_key: String },
    Adopt { thread_key: String },
    EditAdopted { thread_key: String },
    RefreshTitle,
    FindRejected { thread_key: String },
    Reject { thread_key: String },
    Last,
    Finished,
}

/// What happened outside.
#[derive(Debug)]
pub enum CallbackEvent {
    /// The step was done.
    Done,
    /// The question that waits for an answer in the thread: how many answers it offers.
    Prompt(Option<usize>),
    /// What became of the answer, if the question still waited for it.
    Chosen(Option<AnswerOutcome>),
    /// Whether the thread was found.
    Thread(bool),
    /// The step failed, for the reason given.
    Failed(String),
}

/// What is to be done outside.
#[derive(Debug)]
pub enum CallbackStep {
    /// Start the turn that implements the plan.
    LaunchPlan,
    /// Replace the message below which the button stands.
    Edit { notice: CallbackNotice },
    ReadPrompt,
    ChooseOption { request_id: i64, index: usize },
    /// Go on with what became of the answer.
    ApplyAnswer { outcome: AnswerOutcome },
    AnalyzeImages { batch_id: String },
    ShowRestorePage { offset: usize },
    RestoreThread { thread_key: String, offset: usize },
    FindThread { thread_key: String },
    AdoptTui { thread_key: String },
    RejectTui { thread_key: String },
    /// Bring the title of the thread up to date; a failure does not matter.
    RefreshTitle { thread_key: String },
    /// Tell the user's client that the button was handled.
    Answer,
    /// Tell the user why nothing was done.
    Alert { alert: CallbackAlert },
    Finish { outcome: Result<(), CallbackError> },
}

/// The end of the handling.
pub open spec fn callback_ended(outcome: Result<(), CallbackError>) -> (CallbackStage, CallbackStep) {
    (CallbackStage::Finished, CallbackStep::Finish { outcome })
}

/// The last thing that is done.
pub open spec fn lastly(step: CallbackStep) -> (CallbackStage, CallbackStep) {
    (CallbackStage::Last, step)
}

/// How the handling of a pressed button starts.
pub open spec fn callback_start(action: CallbackAction, in_thread: bool) -> (
    CallbackStage,
    CallbackStep,
) {
    match action {
        CallbackAction::PlanImplement { choice } => match choice {
            PlanChoice::Yes => (CallbackStage::LaunchPlan, CallbackStep::LaunchPlan),
            PlanChoice::No => (
                CallbackStage::Edit,
                CallbackStep::Edit { notice: CallbackNotice::StayingInPlan },
            ),
            PlanChoice::Unknown => lastly(CallbackStep::Answer),
        },
        CallbackAction::ChooseOption { request_id, choice } => if !in_thread {
            lastly(CallbackStep::Alert { alert: CallbackAlert::OnlyInThread })
        } else {
            match request_id {
                Some(request_id) => (
                    CallbackStage::ReadPrompt { request_id, choice },
                    CallbackStep::ReadPrompt,
                ),
                None => callback_ended(Err(CallbackError::InvalidRequest)),
            }
        },
        CallbackAction::AnalyzeImages { batch_id } => if !in_thread {
            lastly(CallbackStep::Alert { alert: CallbackAlert::OnlyInThread })
        } else {
            lastly(CallbackStep::AnalyzeImages { batch_id })
        },
        CallbackAction::RestorePage { offset } => (
            CallbackStage::ShowPage,
            CallbackStep::ShowRestorePage { offset },
        ),
        CallbackAction::RestorePick { thread_key, offset } => lastly(
            CallbackStep::RestoreThread { thread_key, offset },
        ),
        CallbackAction::AdoptTui { thread_key } => (
            CallbackStage::FindAdopted { thread_key: thread_key },
            CallbackStep::FindThread { thread_key },
        ),
        CallbackAction::RejectTui { thread_key } => (
            CallbackStage::FindRejected { thread_key: thread_key },
            CallbackStep::FindThread { thread_key },
        ),
        CallbackAction::Unknown => callback_ended(Ok(())),
    }
}

/// The answer that was chosen, by its position; the one behind the last is another answer.
pub open spec fn chosen_index(choice: OptionChoice, offered: usize) -> Option<usize> {
    match choice {
        OptionChoice::Other => Some(offered),
        OptionChoice::Index(index) => Some(index),
        OptionChoice::Invalid => None,
    }
}

/// The next stage of the handling and what is to be done there.
pub open spec fn callback_next(stage: CallbackStage, event: CallbackEvent) -> (
    CallbackStage,
    CallbackStep,
) {
    match (stage, event) {
        (CallbackStage::Finished, _) => callback_ended(Err(CallbackError::OutOfTurn)),
        (CallbackStage::RefreshTitle, CallbackEvent::Failed(_)) => lastly(CallbackStep::Answer),
        (_, CallbackEvent::Failed(reason)) => callback_ended(Err(CallbackError::Outside(reason))),
        (CallbackStage::LaunchPlan, CallbackEvent::Done) => (
            CallbackStage::Edit,
            CallbackStep::Edit { notice: CallbackNotice::ImplementingPlan },
        ),
        (CallbackStage::Edit, CallbackEvent::Done) => lastly(CallbackStep::Answer),
        (CallbackStage::ReadPrompt { request_id, choice }, CallbackEvent::Prompt(prompt)) => {
            match prompt {
                Some(offered) => match chosen_index(choice, offered) {
                    Some(index) => (
                        CallbackStage::ChooseOption,
                        CallbackStep::ChooseOption { request_id, index },
                    ),
                    None => callback_ended(Err(CallbackError::InvalidOption)),
                },
                None => lastly(CallbackStep::Alert { alert: CallbackAlert::NotPending }),
            }
        },
        (CallbackStage::ChooseOption, CallbackEvent::Chosen(Some(outcome))) => (
            CallbackStage::ApplyAnswer,
            CallbackStep::ApplyAnswer { outcome },
        ),
        (CallbackStage::ChooseOption, CallbackEvent::Chosen(None)) => lastly(
            CallbackStep::Alert { alert: CallbackAlert::NotPending },
        ),
        (CallbackStage::ApplyAnswer, CallbackEvent::Done) => lastly(CallbackStep::Answer),
        (CallbackStage::ShowPage, CallbackEvent::Done) => lastly(CallbackStep::Answer),
        (CallbackStage::FindAdopted { thread_key }, CallbackEvent::Thread(found)) => if found {
            (CallbackStage::Adopt { thread_key: thread_key }, CallbackStep::AdoptTui { thread_key })
        } else {
            lastly(CallbackStep::Alert { alert: CallbackAlert::ThreadNotFound })
        },
        (CallbackStage::Adopt { thread_key }, CallbackEvent::Done) => (
            CallbackStage::EditAdopted { thread_key },
            CallbackStep::Edit { notice: CallbackNotice::TuiAdopted },
        ),
        (CallbackStage::FindRejected { thread_key }, CallbackEvent::Thread(found)) => if found {
            (CallbackStage::Reject { thread_key: thread_key }, CallbackStep::RejectTui { thread_key })
        } else {
            lastly(CallbackStep::Alert { alert: CallbackAlert::ThreadNotFound })
        },
        (CallbackStage::Reject { thread_key }, CallbackEvent::Done) => (
            CallbackStage::EditAdopted { thread_key },
            CallbackStep::Edit { notice: CallbackNotice::TuiRejected },
        ),
        (CallbackStage::EditAdopted { thread_key }, CallbackEvent::Done) => (
            CallbackStage::RefreshTitle,
            CallbackStep::RefreshTitle { thread_key },
        ),
        (CallbackStage::RefreshTitle, CallbackEvent::Done) => lastly(CallbackStep::Answer),
        (CallbackStage::Last, CallbackEvent::Done) => callback_ended(Ok(())),
        _ => callback_ended(Err(CallbackError::OutOfTurn)),
    }
}

/// Starts to handle a pressed button below a message, in a thread or not.
pub fn begin_callback(action: CallbackAction, in_thread: bool) -> (res: (
    CallbackStage,
    CallbackStep,
))
    ensures
        res == callback_start(action, in_thread),
{
    match action {
        CallbackAction::PlanImplement { choice } => match choice {
            PlanChoice::Yes => (CallbackStage::LaunchPlan, CallbackStep::LaunchPlan),
            PlanChoice::No => (
                CallbackStage::Edit,
                CallbackStep::Edit { notice: CallbackNotice::StayingInPlan },
            ),
            PlanChoice::Unknown => (CallbackStage::Last, CallbackStep::Answer),
        },
        CallbackAction::ChooseOption { request_id, choice } => {
            if !in_thread {
                return (
                    CallbackStage::Last,
                    CallbackStep::Alert { alert: CallbackAlert::OnlyInThread },
                );
            }
            match request_id {
                Some(request_id) => (
                    CallbackStage::ReadPrompt { request_id, choice },
                    CallbackStep::ReadPrompt,
                ),
                None => (
                    CallbackStage::Finished,
                    CallbackStep::Finish { outcome: Err(CallbackError::InvalidRequest) },
                ),
            }
        },
        CallbackAction::AnalyzeImages { batch_id } => {
            if !in_thread {
                return (
                    CallbackStage::Last,
                    CallbackStep::Alert { alert: CallbackAlert::OnlyInThread },
                );
            }
            (CallbackStage::Last, CallbackStep::AnalyzeImages { batch_id })
        },
        CallbackAction::RestorePage { offset } => (
            CallbackStage::ShowPage,
            CallbackStep::ShowRestorePage { offset },
        ),
        CallbackAction::RestorePick { thread_key, offset } => (
            CallbackStage::Last,
            CallbackStep::RestoreThread { thread_key, offset },
        ),
        CallbackAction::AdoptTui { thread_key } => (
            CallbackStage::FindAdopted { thread_key: thread_key.clone() },
            CallbackStep::FindThread { thread_key },
        ),
        CallbackAction::RejectTui { thread_key } => (
            CallbackStage::FindRejected { thread_key: thread_key.clone() },
            CallbackStep::FindThread { thread_key },
        ),
        CallbackAction::Unknown => (
            CallbackStage::Finished,
            CallbackStep::Finish { outcome: Ok(()) },
        ),
    }
}

/// Goes on after what happened outside.
pub fn advance_callback(stage: CallbackStage, event: CallbackEvent) -> (res: (
    CallbackStage,
    CallbackStep,
))
    ensures
        res == callback_next(stage, event),
{
    match (stage, event) {
        (CallbackStage::Finished, _) => (
            CallbackStage::Finished,
            CallbackStep::Finish { outcome: Err(CallbackError::OutOfTurn) },
        ),
        (CallbackStage::RefreshTitle, CallbackEvent::Failed(_)) => (
            CallbackStage::Last,
            CallbackStep::Answer,
        ),
        (_, CallbackEvent::Failed(reason)) => (
            CallbackStage::Finished,
            CallbackStep::Finish { outcome: Err(CallbackError::Outside(reason)) },
        ),
        (CallbackStage::LaunchPlan, CallbackEvent::Done) => (
            CallbackStage::Edit,
            CallbackStep::Edit { notice: CallbackNotice::ImplementingPlan },
        ),
        (CallbackStage::Edit, CallbackEvent::Done) => (CallbackStage::Last, CallbackStep::Answer),
        (CallbackStage::ReadPrompt { request_id, choice }, CallbackEvent::Prompt(prompt)) => {
            let index: Option<usize> = match (prompt, choice) {
                (None, _) => {
                    return (
                        CallbackStage::Last,
                        CallbackStep::Alert { alert: CallbackAlert::NotPending },
                    );
                },
                (Some(offered), OptionChoice::Other) => Some(offered),
                (Some(_), OptionChoice::Index(index)) => Some(index),
                (Some(_), OptionChoice::Invalid) => None,
            };
            match index {
                Some(index) => (
                    CallbackStage::ChooseOption,
                    CallbackStep::ChooseOption { request_id, index },
                ),
                None => (
                    CallbackStage::Finished,
                    CallbackStep::Finish { outcome: Err(CallbackError::InvalidOption) },
                ),
            }
        },
        (CallbackStage::ChooseOption, CallbackEvent::Chosen(Some(outcome))) => (
            CallbackStage::ApplyAnswer,
            CallbackStep::ApplyAnswer { outcome },
        ),
        (CallbackStage::ChooseOption, CallbackEvent::Chosen(None)) => (
            CallbackStage::Last,
            CallbackStep::Alert { alert: CallbackAlert::NotPending },
        ),
        (CallbackStage::ApplyAnswer, CallbackEvent::Done) => (
            CallbackStage::Last,
            CallbackStep::Answer,
        ),
        (CallbackStage::ShowPage, CallbackEvent::Done) => (
            CallbackStage::Last,
            CallbackStep::Answer,
        ),
        (CallbackStage::FindAdopted { thread_key }, CallbackEvent::Thread(found)) => {
            if found {
                (
                    CallbackStage::Adopt { thread_key: thread_key.clone() },
                    CallbackStep::AdoptTui { thread_key },
                )
            } else {
                (CallbackStage::Last, CallbackStep::Alert { alert: CallbackAlert::ThreadNotFound })
            }
        },
        (CallbackStage::Adopt { thread_key }, CallbackEvent::Done) => (
            CallbackStage::EditAdopted { thread_key },
            CallbackStep::Edit { notice: CallbackNotice::TuiAdopted },
        ),
        (CallbackStage::FindRejected { thread_key }, CallbackEvent::Thread(found)) => {
            if found {
                (
                    CallbackStage::Reject { thread_key: thread_key.clone() },
                    CallbackStep::RejectTui { thread_key },
                )
            } else {
                (CallbackStage::Last, CallbackStep::Alert { alert: CallbackAlert::ThreadNotFound })
            }
        },
        (CallbackStage::Reject { thread_key }, CallbackEvent::Done) => (
            CallbackStage::EditAdopted { thread_key },
            CallbackStep::Edit { notice: CallbackNotice::TuiRejected },
        ),
        (CallbackStage::EditAdopted { thread_key }, CallbackEvent::Done) => (
            CallbackStage::RefreshTitle,
            CallbackStep::RefreshTitle { thread_key },
        ),
        (CallbackStage::RefreshTitle, CallbackEvent::Done) => (
            CallbackStage::Last,
            CallbackStep::Answer,
        ),
        (CallbackStage::Last, CallbackEvent::Done) => (
            CallbackStage::Finished,
            CallbackStep::Finish { outcome: Ok(()) },
        ),
        _ => (
            CallbackStage::Finished,
            CallbackStep::Finish { outcome: Err(CallbackError::OutOfTurn) },
        ),
    }
}

/// How many steps may still follow.
pub open spec fn callback_steps_left(stage: CallbackStage) -> nat {
    match stage {
        CallbackStage::FindAdopted { .. } => 6,
        CallbackStage::FindRejected { .. } => 6,
        CallbackStage::Adopt { .. } => 5,
        CallbackStage::Reject { .. } => 5,
        CallbackStage::EditAdopted { .. } => 4,
        CallbackStage::ReadPrompt { .. } => 4,
        CallbackStage::RefreshTitle => 3,
        CallbackStage::ChooseOption => 3,
        CallbackStage::LaunchPlan => 3,
        CallbackStage::ApplyAnswer => 2,
        CallbackStage::Edit => 2,
        CallbackStage::ShowPage => 2,
        CallbackStage::Last => 1,
        CallbackStage::Finished => 0,
    }
}

/// The handling of a pressed button ends: each step brings it nearer to its end, whatever
/// happens outside.
pub proof fn law_callback_ends(stage: CallbackStage, event: CallbackEvent)
    requires
        !(stage is Finished),
    ensures
        callback_steps_left(callback_next(stage, event).0) < callback_steps_left(stage),
        callback_next(stage, event).0 is Finished <==> callback_next(stage, event).1 is Finish,
{
}

/// The session of a local client is adopted or refused for the thread that the button names, and
/// only where that thread was found.
pub proof fn law_adoption_is_of_the_named_thread(
    thread_key: String,
    in_thread: bool,
    found: bool,
    stage: CallbackStage,
    event: CallbackEvent,
)
    ensures
        callback_next(
            callback_start(CallbackAction::AdoptTui { thread_key }, in_thread).0,
            CallbackEvent::Thread(found),
        ).1 == if found {
            CallbackStep::AdoptTui { thread_key }
        } else {
            CallbackStep::Alert { alert: CallbackAlert::ThreadNotFound }
        },
        callback_next(
            callback_start(CallbackAction::RejectTui { thread_key }, in_thread).0,
            CallbackEvent::Thread(found),
        ).1 == if found {
            CallbackStep::RejectTui { thread_key }
        } else {
            CallbackStep::Alert { alert: CallbackAlert::ThreadNotFound }
        },
        callback_next(stage, event).1 is AdoptTui ==> stage is FindAdopted && event
            == CallbackEvent::Thread(true),
        callback_next(stage, event).1 is RejectTui ==> stage is FindRejected && event
            == CallbackEvent::Thread(true),
{
}

/// The names of actions are told apart, and none holds a colon.
proof fn lemma_action_names()
    ensures
        !CALLBACK_PLAN_IMPLEMENT@.contains(':'),
        !CALLBACK_REQUEST_USER_INPUT_OPTION@.contains(':'),
        !CALLBACK_IMAGE_BATCH_ANALYZE@.contains(':'),
        !CALLBACK_RESTORE_PAGE@.contains(':'),
        !CALLBACK_RESTORE_PICK@.contains(':'),
        !CALLBACK_TUI_ADOPT_ACCEPT@.contains(':'),
        !CALLBACK_TUI_ADOPT_REJECT@.contains(':'),
        CALLBACK_PLAN_IMPLEMENT@.len() == 14,
        CALLBACK_REQUEST_USER_INPUT_OPTION@.len() == 25,
        CALLBACK_IMAGE_BATCH_ANALYZE@.len() == 19,
        CALLBACK_RESTORE_PAGE@.len() == 12,
        CALLBACK_RESTORE_PICK@.len() == 12,
        CALLBACK_TUI_ADOPT_ACCEPT@.len() == 16,
        CALLBACK_TUI_ADOPT_REJECT@.len() == 16,
        CALLBACK_RESTORE_PAGE@ != CALLBACK_RESTORE_PICK@,
        CALLBACK_TUI_ADOPT_ACCEPT@ != CALLBACK_TUI_ADOPT_REJECT@,
{
    reveal_strlit("plan_implement");
    reveal_strlit("request_user_input_option");
    reveal_strlit("image_batch_analyze");
    reveal_strlit("restore_page");
    reveal_strlit("restore_pick");
    reveal_strlit("tui_adopt_accept");
    reveal_strlit("tui_adopt_reject");
    assert("restore_page"@[9] == 'a');
    assert("restore_pick"@[9] == 'i');
    assert("tui_adopt_accept"@[10] == 'a');
    assert("tui_adopt_reject"@[10] == 'r');
}

/// The parts of the data of a button are read back.
proof fn lemma_parts_read_back(parts: Seq<Seq<char>>)
    requires
        parts.len() > 0,
        forall|i: int| 0 <= i < parts.len() ==> !(#[trigger] parts[i]).contains(':'),
    ensures
        text::pieces(button_data(parts), ':') == parts,
{
    text::lemma_pieces_of_joined(parts, ':');
}

/// A button that opens a page of archived threads asks for that page, and one that picks a
/// thread asks for that thread, as long as its key holds no colon.
pub proof fn law_restore_buttons_read_back(thread_key: Seq<char>, offset: usize)
    requires
        !thread_key.contains(':'),
    ensures
        callback_of(button_data(seq![CALLBACK_RESTORE_PAGE@, text::decimal(offset as nat)]))
            == (CallbackModel::RestorePage { offset }),
        callback_of(
            button_data(
                seq![CALLBACK_RESTORE_PICK@, thread_key, text::decimal(offset as nat)],
            ),
        ) == (CallbackModel::RestorePick { thread_key, offset }),
{
    lemma_action_names();
    numbers::law_decimal_reads_back(offset as nat, offset as int);
    numbers::lemma_decimal_has_no(':', offset as int);
    let page = seq![CALLBACK_RESTORE_PAGE@, text::decimal(offset as nat)];
    let pick = seq![CALLBACK_RESTORE_PICK@, thread_key, text::decimal(offset as nat)];
    lemma_parts_read_back(page);
    lemma_parts_read_back(pick);
}

/// A button for a session of the terminal interface asks about its own thread, as long as
/// the key of the thread holds no colon.
pub proof fn law_adoption_buttons_read_back(thread_key: Seq<char>)
    requires
        !thread_key.contains(':'),
    ensures
        callback_of(button_data(seq![CALLBACK_TUI_ADOPT_ACCEPT@, thread_key])) == (
        CallbackModel::AdoptTui { thread_key }),
        callback_of(button_data(seq![CALLBACK_TUI_ADOPT_REJECT@, thread_key])) == (
        CallbackModel::RejectTui { thread_key }),
        callback_of(button_data(seq![CALLBACK_IMAGE_BATCH_ANALYZE@, thread_key])) == (
        CallbackModel::AnalyzeImages { batch_id: thread_key }),
{
    lemma_action_names();
    lemma_parts_read_back(seq![CALLBACK_TUI_ADOPT_ACCEPT@, thread_key]);
    lemma_parts_read_back(seq![CALLBACK_TUI_ADOPT_REJECT@, thread_key]);
    lemma_parts_read_back(seq![CALLBACK_IMAGE_BATCH_ANALYZE@, thread_key]);
}

/// A button for an answer asks for that answer to that request.
pub proof fn law_option_buttons_read_back(request_id: i64, index: usize)
    ensures
        callback_of(
            button_data(
                seq![
                    CALLBACK_REQUEST_USER_INPUT_OPTION@,
                    text::signed_decimal(request_id as int),
                    text::decimal(index as nat),
                ],
            ),
        ) == (CallbackModel::ChooseOption {
            request_id: Some(request_id),
            choice: OptionChoice::Index(index),
        }),
        callback_of(
            button_data(
                seq![
                    CALLBACK_REQUEST_USER_INPUT_OPTION@,
                    text::signed_decimal(request_id as int),
                    "other"@,
                ],
            ),
        ) == (CallbackModel::ChooseOption {
            request_id: Some(request_id),
            choice: OptionChoice::Other,
        }),
{
    lemma_action_names();
    reveal_strlit("other");
    numbers::law_decimal_reads_back(index as nat, index as int);
    numbers::law_decimal_reads_back(0, request_id as int);
    numbers::lemma_decimal_has_no(':', index as int);
    numbers::lemma_decimal_has_no(':', request_id as int);
    numbers::lemma_decimal_has_no('o', index as int);
    let by_index = seq![
        CALLBACK_REQUEST_USER_INPUT_OPTION@,
        text::signed_decimal(request_id as int),
        text::decimal(index as nat),
    ];
    let by_other = seq![
        CALLBACK_REQUEST_USER_INPUT_OPTION@,
        text::signed_decimal(request_id as int),
        "other"@,
    ];
    assert(!"other"@.contains(':'));
    lemma_parts_read_back(by_index);
    lemma_parts_read_back(by_other);
    assert(text::decimal(index as nat) == text::signed_decimal(index as int));
    assert("other"@[0] == 'o');
    assert("other"@.contains('o'));
    assert(text::decimal(index as nat) != "other"@);
}

/// A plan is carried out where the user says yes, and the message then says so; where they say no
/// the message says that nothing changes, and no turn is started.
pub proof fn law_plans_are_carried_out_on_request(
    in_thread: bool,
    stage: CallbackStage,
    event: CallbackEvent,
)
    ensures
        ({
            let yes = callback_start(
                CallbackAction::PlanImplement { choice: PlanChoice::Yes },
                in_thread,
            );
            let launched = callback_next(yes.0, CallbackEvent::Done);
            let no = callback_start(
                CallbackAction::PlanImplement { choice: PlanChoice::No },
                in_thread,
            );
            &&& yes.1 is LaunchPlan
            &&& launched.1 == (CallbackStep::Edit { notice: CallbackNotice::ImplementingPlan })
            &&& no.1 == (CallbackStep::Edit { notice: CallbackNotice::StayingInPlan })
            &&& callback_next(no.0, CallbackEvent::Done).1 is Answer
            &&& callback_next(launched.0, CallbackEvent::Done).1 is Answer
        }),
        callback_next(stage, event).1 !is LaunchPlan,
        callback_start(CallbackAction::PlanImplement { choice: PlanChoice::Unknown }, in_thread).1
            is Answer,
{
}

/// An answer is given to the request that the button names, in a thread, as long as a question
/// waits there: it is the answer at the position that the button names, and another answer is the
/// one behind the last that is offered.
pub proof fn law_answers_go_to_the_named_request(
    request_id: i64,
    index: usize,
    offered: usize,
    outcome: AnswerOutcome,
)
    ensures
        ({
            let by_index = callback_start(
                CallbackAction::ChooseOption {
                    request_id: Some(request_id),
                    choice: OptionChoice::Index(index),
                },
                true,
            );
            let other = callback_start(
                CallbackAction::ChooseOption {
                    request_id: Some(request_id),
                    choice: OptionChoice::Other,
                },
                true,
            );
            let chosen = callback_next(by_index.0, CallbackEvent::Prompt(Some(offered)));
            let not_pending = CallbackStep::Alert { alert: CallbackAlert::NotPending };
            &&& by_index.1 is ReadPrompt
            &&& chosen.1 == (CallbackStep::ChooseOption { request_id, index })
            &&& callback_next(other.0, CallbackEvent::Prompt(Some(offered))).1 == (
            CallbackStep::ChooseOption { request_id, index: offered })
            &&& callback_next(by_index.0, CallbackEvent::Prompt(None)).1 == not_pending
            &&& callback_next(chosen.0, CallbackEvent::Chosen(Some(outcome))).1 == (
            CallbackStep::ApplyAnswer { outcome })
            &&& callback_next(chosen.0, CallbackEvent::Chosen(None)).1 == not_pending
        }),
        callback_start(
            CallbackAction::ChooseOption {
                request_id: Some(request_id),
                choice: OptionChoice::Index(index),
            },
            false,
        ).1 == (CallbackStep::Alert { alert: CallbackAlert::OnlyInThread }),
        callback_start(
            CallbackAction::ChooseOption { request_id: None, choice: OptionChoice::Index(index) },
            true,
        ).1 == (CallbackStep::Finish { outcome: Err(CallbackError::InvalidRequest) }),
{
}

/// A button that shows a page, picks a thread or has images analysed does that with what it names;
/// images are analysed in a thread only.
pub proof fn law_buttons_do_what_they_name(
    thread_key: String,
    batch_id: String,
    offset: usize,
    in_thread: bool,
)
    ensures
        callback_start(CallbackAction::RestorePage { offset }, in_thread).1 == (
        CallbackStep::ShowRestorePage { offset }),
        callback_start(CallbackAction::RestorePick { thread_key, offset }, in_thread).1 == (
        CallbackStep::RestoreThread { thread_key, offset }),
        callback_start(CallbackAction::AnalyzeImages { batch_id }, true).1 == (
        CallbackStep::AnalyzeImages { batch_id }),
        callback_start(CallbackAction::AnalyzeImages { batch_id }, false).1 == (
        CallbackStep::Alert { alert: CallbackAlert::OnlyInThread }),
        callback_start(CallbackAction::Unknown, in_thread).1 == (CallbackStep::Finish {
            outcome: Ok(()),
        }),
{
}

/// Behind an adoption the message says that the session was adopted, behind a refusal that it was
/// not; then the title of that thread is brought up to date, and it does not matter if that fails.
pub proof fn law_adoption_is_announced(thread_key: String, reason: String)
    ensures
        ({
            let adopted = callback_next(CallbackStage::Adopt { thread_key }, CallbackEvent::Done);
            let rejected = callback_next(CallbackStage::Reject { thread_key }, CallbackEvent::Done);
            let edited = callback_next(adopted.0, CallbackEvent::Done);
            let kept = callback_next(rejected.0, CallbackEvent::Done);
            &&& adopted.1 == (CallbackStep::Edit { notice: CallbackNotice::TuiAdopted })
            &&& rejected.1 == (CallbackStep::Edit { notice: CallbackNotice::TuiRejected })
            &&& edited.1 == (CallbackStep::RefreshTitle { thread_key })
            &&& kept.1 == (CallbackStep::RefreshTitle { thread_key })
            &&& callback_next(edited.0, CallbackEvent::Done).1 is Answer
            &&& callback_next(edited.0, CallbackEvent::Failed(reason)).1 is Answer
            &&& callback_next(CallbackStage::Adopt { thread_key }, CallbackEvent::Failed(reason)).1
                == (CallbackStep::Finish { outcome: Err(CallbackError::Outside(reason)) })
        }),
{
}

/// A button for a plan asks for what it says.
pub proof fn law_plan_buttons_read_back(data: Seq<char>)
    ensures
        callback_of(button_data(seq![CALLBACK_PLAN_IMPLEMENT@, "yes"@])) == (
        CallbackModel::PlanImplement { choice: PlanChoice::Yes }),
        callback_of(button_data(seq![CALLBACK_PLAN_IMPLEMENT@, "no"@])) == (
        CallbackModel::PlanImplement { choice: PlanChoice::No }),
{
    reveal_strlit("yes");
    reveal_strlit("no");
    reveal_strlit("plan_implement");
    let action = CALLBACK_PLAN_IMPLEMENT@;
    assert(!action.contains(':'));
    assert(!"yes"@.contains(':') && !"no"@.contains(':'));
    text::lemma_pieces_of_joined(seq![action, "yes"@], ':');
    text::lemma_pieces_of_joined(seq![action, "no"@], ':');
    assert("yes"@.len() != "no"@.len());
}

/// A message below which a button was pressed says what came of it: the plan is carried out in default
/// mode or the thread stays in plan mode, and a local session was taken on or the thread kept its own.
pub proof fn law_pressed_buttons_say_what_came_of_it()
    ensures
        CallbackNotice::ImplementingPlan.body() == "Implementing the plan in Default mode."@,
        CallbackNotice::StayingInPlan.body() == "Staying in Plan mode."@,
        "已採納 TUI session"@.is_prefix_of(CallbackNotice::TuiAdopted.body()),
        "已保留原對話"@.is_prefix_of(CallbackNotice::TuiRejected.body()),
{
    reveal_strlit("已採納 TUI session");
    reveal_strlit("已採納 TUI session，後續 Telegram 對話將接續該 session。");
    reveal_strlit("已保留原對話");
    reveal_strlit("已保留原對話，TUI session 不會被採納為目前 Telegram session。");
}

/// A press of a button is answered once what it asked for is done: a page is shown, an answer is
/// applied. A choice that is none of the offered ones is refused, a step that fails ends the press
/// with its reason, and nothing is taken that was not asked for.
pub proof fn law_presses_are_answered_when_done(
    request_id: i64,
    offered: usize,
    reason: String,
    event: CallbackEvent,
)
    ensures
        callback_next(CallbackStage::ShowPage, CallbackEvent::Done).1 is Answer,
        callback_next(CallbackStage::ApplyAnswer, CallbackEvent::Done).1 is Answer,
        callback_next(CallbackStage::Edit, CallbackEvent::Done).1 is Answer,
        callback_next(CallbackStage::RefreshTitle, CallbackEvent::Done).1 is Answer,
        callback_next(
            callback_next(CallbackStage::ShowPage, CallbackEvent::Done).0,
            CallbackEvent::Done,
        ).1 == (CallbackStep::Finish { outcome: Ok(()) }),
        callback_next(
            CallbackStage::ReadPrompt { request_id, choice: OptionChoice::Invalid },
            CallbackEvent::Prompt(Some(offered)),
        ).1 == (CallbackStep::Finish { outcome: Err(CallbackError::InvalidOption) }),
        callback_next(CallbackStage::ShowPage, CallbackEvent::Failed(reason)).1 == (
        CallbackStep::Finish { outcome: Err(CallbackError::Outside(reason)) }),
        callback_next(CallbackStage::LaunchPlan, CallbackEvent::Failed(reason)).1 == (
        CallbackStep::Finish { outcome: Err(CallbackError::Outside(reason)) }),
        callback_next(CallbackStage::Finished, event).1 == (CallbackStep::Finish {
            outcome: Err(CallbackError::OutOfTurn),
        }),
        event !is Done && event !is Failed ==> callback_next(CallbackStage::ShowPage, event).1 == (
        CallbackStep::Finish { outcome: Err(CallbackError::OutOfTurn) }),
{
}

} // verus!
