//! Images that wait for their analysis, and the turn that analyses them.
use vstd::prelude::*;
use vstd::string::*;

use crate::execution_mode::{ExecutionMode, SessionExecutionSnapshot};
use crate::paths;
use crate::repository;
use crate::repository::SessionBinding;
use crate::telegram_runtime;
use crate::telegram_runtime::busy_copy;
use crate::telegram_runtime::callbacks;
use crate::telegram_runtime::callbacks::Keyboard;
use crate::telegram_runtime::media::IncomingImage;
use crate::telegram_runtime::{FlowError, SessionId, ThreadFacts, TurnTarget};
use crate::text;
use crate::thread_state::{LifecycleStatus, ResolvedThreadState};
use crate::workspace_status::SessionCurrentStatus;

verus! {

broadcast use vstd::string::group_string_axioms;

/// What is put on record of a workspace in which the analysis of images failed.
pub const FAILED_ANALYSIS_SUMMARY: &'static str = "image analysis failed";

/// An image that waits for its analysis.
#[derive(Debug)]
pub struct PendingImage {
    pub caption: Option<String>,
    pub file_name: String,
    pub mime_type: String,
    pub relative_path: String,
    pub source_message_id: i32,
}

/// The images of a thread that wait for their analysis.
#[derive(Debug)]
pub struct PendingImageBatch {
    pub batch_id: String,
    /// The message that shows the batch, once there is one.
    pub control_message_id: Option<i32>,
    pub images: Vec<PendingImage>,
}

/// The button that starts the analysis of a batch.
pub fn image_batch_markup(batch_id: &str) -> (res: Keyboard)
    ensures
        res@ == seq![
            seq![
                callbacks::ButtonModel {
                    label: "直接分析"@,
                    data: callbacks::button_data(
                        seq![callbacks::CALLBACK_IMAGE_BATCH_ANALYZE@, batch_id@],
                    ),
                },
            ],
        ],
{
    let mut keyboard = Keyboard::new();
    keyboard.push_button(
        "直接分析".to_owned(),
        callbacks::data_of_two(callbacks::CALLBACK_IMAGE_BATCH_ANALYZE, batch_id),
    );
    proof {
        assert(keyboard@ =~= seq![
            seq![
                callbacks::ButtonModel {
                    label: "直接分析"@,
                    data: callbacks::button_data(
                        seq![callbacks::CALLBACK_IMAGE_BATCH_ANALYZE@, batch_id@],
                    ),
                },
            ],
        ]);
    }
    keyboard
}

/// How far the showing of a batch has come.
#[derive(Debug, Clone, Copy, PartialEq, Eq, Structural)]
pub enum BatchMessageStage {
    Editing,
    Sending,
    Recording,
    Finished,
}

/// What came of a step.
#[derive(Debug)]
pub enum BatchMessageEvent {
    Done,
    Sent { message_id: i32 },
    Failed(String),
}

/// What is to be done next.
#[derive(Debug)]
pub enum BatchMessageStep {
    /// Change the message that shows the batch.
    Edit { message_id: i32 },
    /// Send a message that shows the batch.
    Send,
    /// Remember which message shows the batch.
    Record { message_id: i32 },
    Finish { outcome: Result<(), FlowError> },
}

/// The first step of the showing of a batch: its message is changed where there is one.
pub fn begin_batch_message(control_message_id: Option<i32>) -> (res: (
    BatchMessageStage,
    BatchMessageStep,
))
    ensures
        res == match control_message_id {
            Some(message_id) => (
                BatchMessageStage::Editing,
                BatchMessageStep::Edit { message_id },
            ),
            None => (BatchMessageStage::Sending, BatchMessageStep::Send),
        },
{
    match control_message_id {
        Some(message_id) => (BatchMessageStage::Editing, BatchMessageStep::Edit { message_id }),
        None => (BatchMessageStage::Sending, BatchMessageStep::Send),
    }
}

/// The end of the showing of a batch.
pub open spec fn batch_message_ended(outcome: Result<(), FlowError>) -> (BatchMessageStage, BatchMessageStep) {
    (BatchMessageStage::Finished, BatchMessageStep::Finish { outcome })
}

fn end_batch_message(outcome: Result<(), FlowError>) -> (res: (BatchMessageStage, BatchMessageStep))
    ensures
        res == batch_message_ended(outcome),
{
    (BatchMessageStage::Finished, BatchMessageStep::Finish { outcome })
}

/// What follows from an event.
pub open spec fn batch_message_next(stage: BatchMessageStage, event: BatchMessageEvent) -> (BatchMessageStage, BatchMessageStep) {
    match (stage, event) {
        (BatchMessageStage::Finished, _) => batch_message_ended(Err(FlowError::OutOfTurn)),
        (BatchMessageStage::Editing, BatchMessageEvent::Failed(_)) => (
            BatchMessageStage::Sending,
            BatchMessageStep::Send,
        ),
        (_, BatchMessageEvent::Failed(reason)) => batch_message_ended(
            Err(FlowError::Outside(reason)),
        ),
        (BatchMessageStage::Editing, BatchMessageEvent::Done) => batch_message_ended(Ok(())),
        (BatchMessageStage::Sending, BatchMessageEvent::Sent { message_id }) => (
            BatchMessageStage::Recording,
            BatchMessageStep::Record { message_id },
        ),
        (BatchMessageStage::Recording, BatchMessageEvent::Done) => batch_message_ended(Ok(())),
        _ => batch_message_ended(Err(FlowError::OutOfTurn)),
    }
}

/// The next step of the showing of a batch.
pub fn advance_batch_message(stage: BatchMessageStage, event: BatchMessageEvent) -> (res: (BatchMessageStage, BatchMessageStep))
    ensures
        res == batch_message_next(stage, event),
{
    match (stage, event) {
        (BatchMessageStage::Finished, _) => end_batch_message(Err(FlowError::OutOfTurn)),
        (BatchMessageStage::Editing, BatchMessageEvent::Failed(_)) => (
            BatchMessageStage::Sending,
            BatchMessageStep::Send,
        ),
        (_, BatchMessageEvent::Failed(reason)) => end_batch_message(
            Err(FlowError::Outside(reason)),
        ),
        (BatchMessageStage::Editing, BatchMessageEvent::Done) => end_batch_message(Ok(())),
        (BatchMessageStage::Sending, BatchMessageEvent::Sent { message_id }) => (
            BatchMessageStage::Recording,
            BatchMessageStep::Record { message_id },
        ),
        (BatchMessageStage::Recording, BatchMessageEvent::Done) => end_batch_message(Ok(())),
        _ => end_batch_message(Err(FlowError::OutOfTurn)),
    }
}

/// How many steps the showing of a batch can still take.
pub open spec fn batch_message_steps_left(stage: BatchMessageStage) -> nat {
    match stage {
        BatchMessageStage::Editing => 3,
        BatchMessageStage::Sending => 2,
        BatchMessageStage::Recording => 1,
        BatchMessageStage::Finished => 0,
    }
}

/// Whatever comes of its steps, the showing of a batch ends.
pub proof fn law_batch_message_ends(stage: BatchMessageStage, event: BatchMessageEvent)
    ensures
        batch_message_next(stage, event).1 is Finish <==> batch_message_next(stage, event).0 is Finished,
        stage !is Finished ==> batch_message_steps_left(batch_message_next(stage, event).0) < batch_message_steps_left(stage),
        stage is Finished ==> batch_message_next(stage, event).0 is Finished,
{
}

/// What a user is told who sends an image.
#[derive(Debug)]
pub enum ImageReply {
    Archived,
    Unusable { state: ResolvedThreadState, session: Option<SessionBinding> },
    Busy { busy: SessionCurrentStatus },
}

impl ImageReply {
    /// What the user is told.
    pub open spec fn body(self) -> Seq<char> {
        match self {
            ImageReply::Archived => "This thread is archived."@,
            ImageReply::Unusable { state, session } => telegram_runtime::state_hint(
                state,
                repository::opt_binding(session),
            ),
            ImageReply::Busy { busy } => busy_copy::busy_prompt_text(busy, true),
        }
    }

    /// What the user is told.
    pub fn to_text(&self) -> (res: String)
        ensures
            res@ == self.body(),
    {
        match self {
            ImageReply::Archived => "This thread is archived.".to_owned(),
            ImageReply::Unusable { state, session } => telegram_runtime::hint_text(*state, session),
            ImageReply::Busy { busy } => busy_copy::busy_text_message(busy, true),
        }
    }
}

/// What is put on record about an image.
pub fn image_log(image: &IncomingImage) -> (res: String)
    ensures
        res@ == match image.caption {
            Some(caption) => "[image] "@ + image.file_name@ + " | caption: "@ + caption@,
            None => "[image] "@ + image.file_name@,
        },
{
    match &image.caption {
        Some(caption) => text::concat4(
            "[image] ",
            image.file_name.as_str(),
            " | caption: ",
            caption.as_str(),
        ),
        None => text::concat2("[image] ", image.file_name.as_str()),
    }
}

/// What is put on record about a batch.
pub fn batch_log(images: usize) -> (res: String)
    ensures
        res@ == "Image batch updated: "@ + text::decimal(images as nat)
            + " image(s) waiting for analysis."@,
{
    let count = text::decimal_text(images as u64);
    text::concat3("Image batch updated: ", count.as_str(), " image(s) waiting for analysis.")
}

/// How far the taking in of an image has come.
#[derive(Debug)]
pub enum QueueStage {
    Loading,
    Preparing { busy: Option<SessionCurrentStatus> },
    Opening { busy: Option<SessionCurrentStatus> },
    Downloading { busy: Option<SessionCurrentStatus> },
    Appending { busy: Option<SessionCurrentStatus> },
    Showing { busy: Option<SessionCurrentStatus> },
    Logging { busy: Option<SessionCurrentStatus>, shown: bool, images: usize },
    LoggingBatch { busy: Option<SessionCurrentStatus> },
    Replying,
    Finished,
}

/// What came of a step.
#[derive(Debug)]
pub enum QueueEvent {
    /// What is known of the thread, once the input was routed to its session.
    Thread(ThreadFacts),
    Done,
    /// The batch as it is shown: whether a message shows it, and how many images it has.
    Shown { shown: bool, images: usize },
    Failed(String),
}

/// What is to be done next.
#[derive(Debug)]
pub enum QueueStep {
    Load,
    Reply { reply: ImageReply },
    /// Make sure that the runtime of the workspace runs.
    PrepareRuntime { workspace: String },
    /// Open the batch of the thread, or begin one.
    OpenBatch,
    Download,
    /// Put the image into the batch.
    Append,
    ShowBatch,
    LogImage,
    LogBatch { images: usize },
    Finish { outcome: Result<(), FlowError> },
}

/// The first step of the taking in of an image; a message outside a thread is refused.
pub fn begin_queue(in_thread: bool) -> (res: (QueueStage, QueueStep))
    ensures
        res == if in_thread {
            (QueueStage::Loading, QueueStep::Load)
        } else {
            queue_ended(Err(FlowError::MissingThreadId))
        },
{
    if in_thread {
        (QueueStage::Loading, QueueStep::Load)
    } else {
        end_queue(Err(FlowError::MissingThreadId))
    }
}

/// What follows from what is known of the thread: an archived one takes no image, nor does one
/// without a usable session.
pub open spec fn queue_loaded(facts: ThreadFacts) -> (QueueStage, QueueStep) {
    if facts.state.lifecycle_status == LifecycleStatus::Archived {
        (QueueStage::Replying, QueueStep::Reply { reply: ImageReply::Archived })
    } else if facts.usable() is None {
        (
            QueueStage::Replying,
            QueueStep::Reply {
                reply: ImageReply::Unusable { state: facts.state, session: facts.session },
            },
        )
    } else {
        match facts.session->0.workspace_cwd {
            Some(workspace) => (
                QueueStage::Preparing { busy: facts.busy },
                QueueStep::PrepareRuntime { workspace },
            ),
            None => queue_ended(Err(FlowError::MissingWorkspace)),
        }
    }
}

fn on_queue_loaded(facts: ThreadFacts) -> (res: (QueueStage, QueueStep))
    ensures
        res == queue_loaded(facts),
{
    if facts.state.is_archived() {
        return (QueueStage::Replying, QueueStep::Reply { reply: ImageReply::Archived });
    }
    if !facts.is_usable() {
        return (
            QueueStage::Replying,
            QueueStep::Reply {
                reply: ImageReply::Unusable { state: facts.state, session: facts.session },
            },
        );
    }
    match facts.turn_target() {
        Some(target) => (
            QueueStage::Preparing { busy: facts.busy },
            QueueStep::PrepareRuntime { workspace: target.workspace },
        ),
        None => end_queue(Err(FlowError::MissingWorkspace)),
    }
}

/// The end of the taking in of an image: a user whose turn runs is told so.
pub open spec fn queue_closed(busy: Option<SessionCurrentStatus>) -> (QueueStage, QueueStep) {
    match busy {
        Some(busy) => (
            QueueStage::Replying,
            QueueStep::Reply { reply: ImageReply::Busy { busy } },
        ),
        None => queue_ended(Ok(())),
    }
}

fn close_queue(busy: Option<SessionCurrentStatus>) -> (res: (QueueStage, QueueStep))
    ensures
        res == queue_closed(busy),
{
    match busy {
        Some(busy) => (
            QueueStage::Replying,
            QueueStep::Reply { reply: ImageReply::Busy { busy } },
        ),
        None => end_queue(Ok(())),
    }
}

/// The end of the taking in of an image.
pub open spec fn queue_ended(outcome: Result<(), FlowError>) -> (QueueStage, QueueStep) {
    (QueueStage::Finished, QueueStep::Finish { outcome })
}

fn end_queue(outcome: Result<(), FlowError>) -> (res: (QueueStage, QueueStep))
    ensures
        res == queue_ended(outcome),
{
    (QueueStage::Finished, QueueStep::Finish { outcome })
}

/// What follows from an event.
pub open spec fn queue_next(stage: QueueStage, event: QueueEvent) -> (QueueStage, QueueStep) {
    match (stage, event) {
        (QueueStage::Finished, _) => queue_ended(Err(FlowError::OutOfTurn)),
        (_, QueueEvent::Failed(reason)) => queue_ended(Err(FlowError::Outside(reason))),
        (QueueStage::Loading, QueueEvent::Thread(facts)) => queue_loaded(facts),
        (QueueStage::Preparing { busy }, QueueEvent::Done) => (
            QueueStage::Opening { busy },
            QueueStep::OpenBatch,
        ),
        (QueueStage::Opening { busy }, QueueEvent::Done) => (
            QueueStage::Downloading { busy },
            QueueStep::Download,
        ),
        (QueueStage::Downloading { busy }, QueueEvent::Done) => (
            QueueStage::Appending { busy },
            QueueStep::Append,
        ),
        (QueueStage::Appending { busy }, QueueEvent::Done) => (
            QueueStage::Showing { busy },
            QueueStep::ShowBatch,
        ),
        (QueueStage::Showing { busy }, QueueEvent::Shown { shown, images }) => (
            QueueStage::Logging { busy, shown, images },
            QueueStep::LogImage,
        ),
        (QueueStage::Logging { busy, shown, images }, QueueEvent::Done) => if shown {
            (QueueStage::LoggingBatch { busy }, QueueStep::LogBatch { images })
        } else {
            queue_closed(busy)
        },
        (QueueStage::LoggingBatch { busy }, QueueEvent::Done) => queue_closed(busy),
        (QueueStage::Replying, QueueEvent::Done) => queue_ended(Ok(())),
        _ => queue_ended(Err(FlowError::OutOfTurn)),
    }
}

/// The next step of the taking in of an image.
pub fn advance_queue(stage: QueueStage, event: QueueEvent) -> (res: (QueueStage, QueueStep))
    ensures
        res == queue_next(stage, event),
{
    match (stage, event) {
        (QueueStage::Finished, _) => end_queue(Err(FlowError::OutOfTurn)),
        (_, QueueEvent::Failed(reason)) => end_queue(Err(FlowError::Outside(reason))),
        (QueueStage::Loading, QueueEvent::Thread(facts)) => on_queue_loaded(facts),
        (QueueStage::Preparing { busy }, QueueEvent::Done) => (
            QueueStage::Opening { busy },
            QueueStep::OpenBatch,
        ),
        (QueueStage::Opening { busy }, QueueEvent::Done) => (
            QueueStage::Downloading { busy },
            QueueStep::Download,
        ),
        (QueueStage::Downloading { busy }, QueueEvent::Done) => (
            QueueStage::Appending { busy },
            QueueStep::Append,
        ),
        (QueueStage::Appending { busy }, QueueEvent::Done) => (
            QueueStage::Showing { busy },
            QueueStep::ShowBatch,
        ),
        (QueueStage::Showing { busy }, QueueEvent::Shown { shown, images }) => (
            QueueStage::Logging { busy, shown, images },
            QueueStep::LogImage,
        ),
        (QueueStage::Logging { busy, shown, images }, QueueEvent::Done) => if shown {
            (QueueStage::LoggingBatch { busy }, QueueStep::LogBatch { images })
        } else {
            close_queue(busy)
        },
        (QueueStage::LoggingBatch { busy }, QueueEvent::Done) => close_queue(busy),
        (QueueStage::Replying, QueueEvent::Done) => end_queue(Ok(())),
        _ => end_queue(Err(FlowError::OutOfTurn)),
    }
}

/// How many steps the taking in of an image can still take.
pub open spec fn queue_steps_left(stage: QueueStage) -> nat {
    match stage {
        QueueStage::Loading => 9,
        QueueStage::Preparing { .. } => 8,
        QueueStage::Opening { .. } => 7,
        QueueStage::Downloading { .. } => 6,
        QueueStage::Appending { .. } => 5,
        QueueStage::Showing { .. } => 4,
        QueueStage::Logging { .. } => 3,
        QueueStage::LoggingBatch { .. } => 2,
        QueueStage::Replying => 1,
        QueueStage::Finished => 0,
    }
}

/// Whatever comes of its steps, the taking in of an image ends.
pub proof fn law_queue_ends(stage: QueueStage, event: QueueEvent)
    ensures
        queue_next(stage, event).1 is Finish <==> queue_next(stage, event).0 is Finished,
        stage !is Finished ==> queue_steps_left(queue_next(stage, event).0) < queue_steps_left(stage),
        stage is Finished ==> queue_next(stage, event).0 is Finished,
{
}

/// An image is downloaded only for a thread that is not archived and has a usable session.
pub proof fn law_images_need_a_usable_thread(stage: QueueStage, event: QueueEvent)
    ensures
        queue_next(stage, event).1 is Download ==> stage is Opening,
        queue_next(stage, event).0 is Opening ==> stage is Preparing,
        queue_next(stage, event).0 is Preparing ==> stage is Loading && (
        event matches QueueEvent::Thread(facts) && facts.state.lifecycle_status
            != LifecycleStatus::Archived && facts.usable() is Some),
{
}

/// What a user is told who asks for the analysis of a batch.
#[derive(Debug)]
pub enum AnalysisReply {
    Archived,
    Unusable { state: ResolvedThreadState, session: Option<SessionBinding> },
    Busy { busy: SessionCurrentStatus },
    Starting,
}

impl AnalysisReply {
    /// What the user is told.
    pub open spec fn body(self) -> Seq<char> {
        match self {
            AnalysisReply::Archived => "This thread is archived."@,
            AnalysisReply::Unusable { state, session } => telegram_runtime::state_hint(
                state,
                repository::opt_binding(session),
            ),
            AnalysisReply::Busy { busy } => busy_copy::busy_prompt_text(busy, false),
            AnalysisReply::Starting => "Starting image analysis..."@,
        }
    }

    /// What the user is told.
    pub fn to_text(&self) -> (res: String)
        ensures
            res@ == self.body(),
    {
        match self {
            AnalysisReply::Archived => "This thread is archived.".to_owned(),
            AnalysisReply::Unusable { state, session } => telegram_runtime::hint_text(
                *state,
                session,
            ),
            AnalysisReply::Busy { busy } => busy_copy::busy_text_message(busy, false),
            AnalysisReply::Starting => "Starting image analysis...".to_owned(),
        }
    }

    /// Whether the user must close what they are told.
    pub fn is_insistent(&self) -> (res: bool)
        ensures
            res == !(*self is Starting),
    {
        match self {
            AnalysisReply::Starting => false,
            _ => true,
        }
    }
}

/// What a turn that analyses a batch is summed up as.
pub fn analysis_summary(user_prompt: Option<&str>) -> (res: &str)
    ensures
        res@ == text::or_text(text::opt_str_view(user_prompt), "Analyze pending image batch"@),
{
    text::text_or(user_prompt, "Analyze pending image batch")
}

/// A request for the analysis of a batch.
#[derive(Debug)]
pub struct AnalysisRequest {
    pub batch_id: String,
    /// Whether the request came from the button of the batch.
    pub by_button: bool,
}

/// What is known of the batch of a thread.
#[derive(Debug)]
pub struct BatchFacts {
    pub batch_id: String,
    pub images: usize,
}

/// How far a request for the analysis of a batch has come.
#[derive(Debug)]
pub enum AnalysisStage {
    Loading { request: AnalysisRequest },
    Routing { request: AnalysisRequest },
    Preparing { request: AnalysisRequest, busy: Option<SessionCurrentStatus>, target: TurnTarget },
    ReadingBatch { request: AnalysisRequest, target: TurnTarget },
    Answering { target: TurnTarget, batch: PendingImageBatch },
    Recording { target: TurnTarget, batch: PendingImageBatch },
    Last,
    Finished,
}

/// What came of a step.
#[derive(Debug)]
pub enum AnalysisEvent {
    /// What is known of the thread.
    Thread(ThreadFacts),
    Done,
    /// The batch of the thread, where there is one.
    Batch(Option<PendingImageBatch>),
    Failed(String),
}

/// What is to be done next.
#[derive(Debug)]
pub enum AnalysisStep {
    /// Find out what is known of the thread.
    Load,
    /// Route the input to the session of the thread, and find out what is known of it then.
    Route,
    /// Answer the press of the button.
    Answer { reply: AnalysisReply },
    /// Send a message into the thread.
    Send { reply: AnalysisReply },
    /// Make sure that the runtime of the workspace runs.
    PrepareRuntime { workspace: String },
    ReadBatch,
    /// Put on record that a turn has started.
    RecordStart { target: TurnTarget },
    /// Start the turn that analyses the batch.
    StartTurn { target: TurnTarget, batch: PendingImageBatch },
    Finish { outcome: Result<(), FlowError> },
}

/// The first step of a request for the analysis of a batch.
pub fn begin_analysis(request: AnalysisRequest) -> (res: (AnalysisStage, AnalysisStep))
    ensures
        res == (AnalysisStage::Loading { request }, AnalysisStep::Load),
{
    (AnalysisStage::Loading { request }, AnalysisStep::Load)
}

/// A refusal, which only the press of a button is answered with.
pub open spec fn analysis_refused(by_button: bool, reply: AnalysisReply) -> (
    AnalysisStage,
    AnalysisStep,
) {
    if by_button {
        (AnalysisStage::Last, AnalysisStep::Answer { reply })
    } else {
        analysis_ended(Ok(()))
    }
}

fn refuse_analysis(by_button: bool, reply: AnalysisReply) -> (res: (AnalysisStage, AnalysisStep))
    ensures
        res == analysis_refused(by_button, reply),
{
    if by_button {
        (AnalysisStage::Last, AnalysisStep::Answer { reply })
    } else {
        end_analysis(Ok(()))
    }
}

/// What follows from what is known of the thread before the input is routed.
pub open spec fn analysis_loaded(request: AnalysisRequest, facts: ThreadFacts) -> (
    AnalysisStage,
    AnalysisStep,
) {
    if facts.state.lifecycle_status == LifecycleStatus::Archived {
        analysis_refused(request.by_button, AnalysisReply::Archived)
    } else {
        (AnalysisStage::Routing { request }, AnalysisStep::Route)
    }
}

fn on_analysis_loaded(request: AnalysisRequest, facts: ThreadFacts) -> (res: (
    AnalysisStage,
    AnalysisStep,
))
    ensures
        res == analysis_loaded(request, facts),
{
    if facts.state.is_archived() {
        refuse_analysis(request.by_button, AnalysisReply::Archived)
    } else {
        (AnalysisStage::Routing { request }, AnalysisStep::Route)
    }
}

/// What follows from what is known of the thread once the input is routed: the turn is to continue
/// its usable session.
pub open spec fn analysis_routed(request: AnalysisRequest, facts: ThreadFacts) -> (
    AnalysisStage,
    AnalysisStep,
) {
    if facts.usable() is None {
        analysis_refused(
            request.by_button,
            AnalysisReply::Unusable { state: facts.state, session: facts.session },
        )
    } else {
        match facts.target() {
            Some(target) => (
                AnalysisStage::Preparing { request, busy: facts.busy, target },
                AnalysisStep::PrepareRuntime { workspace: target.workspace },
            ),
            None => analysis_ended(Err(FlowError::MissingWorkspace)),
        }
    }
}

fn on_analysis_routed(request: AnalysisRequest, facts: ThreadFacts) -> (res: (
    AnalysisStage,
    AnalysisStep,
))
    ensures
        res == analysis_routed(request, facts),
{
    if !facts.is_usable() {
        return refuse_analysis(
            request.by_button,
            AnalysisReply::Unusable { state: facts.state, session: facts.session },
        );
    }
    match facts.turn_target() {
        Some(target) => {
            let workspace = target.workspace.clone();
            (
                AnalysisStage::Preparing { request, busy: facts.busy, target },
                AnalysisStep::PrepareRuntime { workspace },
            )
        },
        None => end_analysis(Err(FlowError::MissingWorkspace)),
    }
}

/// What follows once the runtime runs: a thread whose turn runs has to wait.
pub open spec fn analysis_prepared(
    request: AnalysisRequest,
    busy: Option<SessionCurrentStatus>,
    target: TurnTarget,
) -> (AnalysisStage, AnalysisStep) {
    match busy {
        Some(busy) => if request.by_button {
            (AnalysisStage::Last, AnalysisStep::Answer { reply: AnalysisReply::Busy { busy } })
        } else {
            (AnalysisStage::Last, AnalysisStep::Send { reply: AnalysisReply::Busy { busy } })
        },
        None => (AnalysisStage::ReadingBatch { request, target }, AnalysisStep::ReadBatch),
    }
}

fn on_analysis_prepared(
    request: AnalysisRequest,
    busy: Option<SessionCurrentStatus>,
    target: TurnTarget,
) -> (res: (AnalysisStage, AnalysisStep))
    ensures
        res == analysis_prepared(request, busy, target),
{
    match busy {
        Some(busy) => {
            if request.by_button {
                (AnalysisStage::Last, AnalysisStep::Answer { reply: AnalysisReply::Busy { busy } })
            } else {
                (AnalysisStage::Last, AnalysisStep::Send { reply: AnalysisReply::Busy { busy } })
            }
        },
        None => (AnalysisStage::ReadingBatch { request, target }, AnalysisStep::ReadBatch),
    }
}

/// What follows from the batch of the thread: only the batch that was asked for is analysed, and
/// only if it has images.
pub open spec fn analysis_of_batch(
    request: AnalysisRequest,
    target: TurnTarget,
    batch: Option<PendingImageBatch>,
) -> (AnalysisStage, AnalysisStep) {
    match batch {
        Some(batch) => if batch.batch_id@ != request.batch_id@ || batch.images@.len() == 0 {
            analysis_ended(Ok(()))
        } else if request.by_button {
            (
                AnalysisStage::Answering { target, batch },
                AnalysisStep::Answer { reply: AnalysisReply::Starting },
            )
        } else {
            (AnalysisStage::Recording { target, batch }, AnalysisStep::RecordStart { target })
        },
        None => analysis_ended(Ok(())),
    }
}

fn on_batch(
    request: AnalysisRequest,
    target: TurnTarget,
    batch: Option<PendingImageBatch>,
) -> (res: (AnalysisStage, AnalysisStep))
    ensures
        res == analysis_of_batch(request, target, batch),
{
    match batch {
        Some(batch) => {
            if !text::same_text(batch.batch_id.as_str(), request.batch_id.as_str())
                || batch.images.len() == 0 {
                end_analysis(Ok(()))
            } else if request.by_button {
                (
                    AnalysisStage::Answering { target, batch },
                    AnalysisStep::Answer { reply: AnalysisReply::Starting },
                )
            } else {
                (
                    AnalysisStage::Recording { target: target.copy(), batch },
                    AnalysisStep::RecordStart { target },
                )
            }
        },
        None => end_analysis(Ok(())),
    }
}

/// The end of a request for the analysis of a batch.
pub open spec fn analysis_ended(outcome: Result<(), FlowError>) -> (AnalysisStage, AnalysisStep) {
    (AnalysisStage::Finished, AnalysisStep::Finish { outcome })
}

fn end_analysis(outcome: Result<(), FlowError>) -> (res: (AnalysisStage, AnalysisStep))
    ensures
        res == analysis_ended(outcome),
{
    (AnalysisStage::Finished, AnalysisStep::Finish { outcome })
}

/// What follows from an event.
pub open spec fn analysis_next(stage: AnalysisStage, event: AnalysisEvent) -> (AnalysisStage, AnalysisStep) {
    match (stage, event) {
        (AnalysisStage::Finished, _) => analysis_ended(Err(FlowError::OutOfTurn)),
        (_, AnalysisEvent::Failed(reason)) => analysis_ended(Err(FlowError::Outside(reason))),
        (AnalysisStage::Loading { request }, AnalysisEvent::Thread(facts)) => analysis_loaded(
            request,
            facts,
        ),
        (AnalysisStage::Routing { request }, AnalysisEvent::Thread(facts)) => analysis_routed(
            request,
            facts,
        ),
        (
            AnalysisStage::Preparing { request, busy, target },
            AnalysisEvent::Done,
        ) => analysis_prepared(request, busy, target),
        (
            AnalysisStage::ReadingBatch { request, target },
            AnalysisEvent::Batch(batch),
        ) => analysis_of_batch(request, target, batch),
        (AnalysisStage::Answering { target, batch }, AnalysisEvent::Done) => (
            AnalysisStage::Recording { target: target, batch },
            AnalysisStep::RecordStart { target },
        ),
        (AnalysisStage::Recording { target, batch }, AnalysisEvent::Done) => (
            AnalysisStage::Last,
            AnalysisStep::StartTurn { target, batch },
        ),
        (AnalysisStage::Last, AnalysisEvent::Done) => analysis_ended(Ok(())),
        _ => analysis_ended(Err(FlowError::OutOfTurn)),
    }
}

/// The next step of a request for the analysis of a batch.
pub fn advance_analysis(stage: AnalysisStage, event: AnalysisEvent) -> (res: (AnalysisStage, AnalysisStep))
    ensures
        res == analysis_next(stage, event),
{
    match (stage, event) {
        (AnalysisStage::Finished, _) => end_analysis(Err(FlowError::OutOfTurn)),
        (_, AnalysisEvent::Failed(reason)) => end_analysis(Err(FlowError::Outside(reason))),
        (AnalysisStage::Loading { request }, AnalysisEvent::Thread(facts)) => on_analysis_loaded(
            request,
            facts,
        ),
        (AnalysisStage::Routing { request }, AnalysisEvent::Thread(facts)) => on_analysis_routed(
            request,
            facts,
        ),
        (
            AnalysisStage::Preparing { request, busy, target },
            AnalysisEvent::Done,
        ) => on_analysis_prepared(request, busy, target),
        (AnalysisStage::ReadingBatch { request, target }, AnalysisEvent::Batch(batch)) => on_batch(
            request,
            target,
            batch,
        ),
        (AnalysisStage::Answering { target, batch }, AnalysisEvent::Done) => (
            AnalysisStage::Recording { target: target.copy(), batch },
            AnalysisStep::RecordStart { target },
        ),
        (AnalysisStage::Recording { target, batch }, AnalysisEvent::Done) => (
            AnalysisStage::Last,
            AnalysisStep::StartTurn { target, batch },
        ),
        (AnalysisStage::Last, AnalysisEvent::Done) => end_analysis(Ok(())),
        _ => end_analysis(Err(FlowError::OutOfTurn)),
    }
}

/// How many steps a request for the analysis of a batch can still take.
pub open spec fn analysis_steps_left(stage: AnalysisStage) -> nat {
    match stage {
        AnalysisStage::Loading { .. } => 7,
        AnalysisStage::Routing { .. } => 6,
        AnalysisStage::Preparing { .. } => 5,
        AnalysisStage::ReadingBatch { .. } => 4,
        AnalysisStage::Answering { .. } => 3,
        AnalysisStage::Recording { .. } => 2,
        AnalysisStage::Last => 1,
        AnalysisStage::Finished => 0,
    }
}

/// Whatever comes of its steps, a request for the analysis of a batch ends.
pub proof fn law_analysis_ends(stage: AnalysisStage, event: AnalysisEvent)
    ensures
        analysis_next(stage, event).1 is Finish <==> analysis_next(stage, event).0 is Finished,
        stage !is Finished ==> analysis_steps_left(analysis_next(stage, event).0) < analysis_steps_left(stage),
        stage is Finished ==> analysis_next(stage, event).0 is Finished,
{
}

/// The batch that is to be analysed, once it is known.
pub open spec fn analysis_batch(stage: AnalysisStage) -> Option<PendingImageBatch> {
    match stage {
        AnalysisStage::Answering { batch, .. } => Some(batch),
        AnalysisStage::Recording { batch, .. } => Some(batch),
        _ => None,
    }
}

/// A batch is analysed only in a thread with a usable session that is not busy, and only if it is
/// the one that was asked for and has images. It is analysed as it was read.
pub proof fn law_only_the_asked_batch_is_analysed(stage: AnalysisStage, event: AnalysisEvent)
    ensures
        analysis_next(stage, event).1 matches AnalysisStep::StartTurn { batch, .. }
            ==> analysis_batch(stage) == Some(batch),
        analysis_batch(analysis_next(stage, event).0) matches Some(batch) ==> analysis_batch(stage)
            == Some(batch) || (stage matches AnalysisStage::ReadingBatch { request, .. } && event
            == AnalysisEvent::Batch(Some(batch)) && batch.batch_id@ == request.batch_id@
            && batch.images@.len() > 0),
        analysis_next(stage, event).0 is ReadingBatch ==> (stage matches AnalysisStage::Preparing {
            busy,
            ..
        } && busy is None),
        analysis_next(stage, event).0 is Preparing ==> stage is Routing && (
        event matches AnalysisEvent::Thread(facts) && facts.usable() is Some),
{
}

/// What the turn that analyses a batch is to continue, once it is known.
pub open spec fn analysis_target(stage: AnalysisStage) -> Option<TurnTarget> {
    match stage {
        AnalysisStage::Preparing { target, .. } => Some(target),
        AnalysisStage::ReadingBatch { target, .. } => Some(target),
        AnalysisStage::Answering { target, .. } => Some(target),
        AnalysisStage::Recording { target, .. } => Some(target),
        _ => None,
    }
}

/// The turn that analyses a batch continues the session of the thread that the request was routed
/// to, in the workspace of its binding, and that session is the one on record.
pub proof fn law_analyses_keep_their_session(
    request: AnalysisRequest,
    facts: ThreadFacts,
    stage: AnalysisStage,
    event: AnalysisEvent,
)
    ensures
        analysis_next(AnalysisStage::Routing { request }, AnalysisEvent::Thread(facts)).0
            matches AnalysisStage::Preparing { target, .. } ==> facts.usable() == Some(
            target.session_id@,
        ) && facts.session->0.workspace_cwd == Some(target.workspace),
        analysis_target(analysis_next(stage, event).0) is Some ==> stage is Routing
            || analysis_target(analysis_next(stage, event).0) == analysis_target(stage),
        analysis_next(stage, event).1 matches AnalysisStep::RecordStart { target }
            ==> analysis_target(stage) == Some(target),
        analysis_next(stage, event).1 matches AnalysisStep::StartTurn { target, .. }
            ==> analysis_target(stage) == Some(target),
{
}

/// What a turn gets to work with.
#[derive(Debug, Clone, PartialEq, Eq)]
pub enum CodexInputItem {
    Text { text: String },
    LocalImage { path: String },
}

/// An input as a value.
pub enum InputModel {
    Text { text: Seq<char> },
    LocalImage { path: Seq<char> },
}

impl View for CodexInputItem {
    type V = InputModel;

    open spec fn view(&self) -> InputModel {
        match *self {
            CodexInputItem::Text { text } => InputModel::Text { text: text@ },
            CodexInputItem::LocalImage { path } => InputModel::LocalImage { path: path@ },
        }
    }
}

/// Inputs as values.
pub open spec fn input_models(input: Seq<CodexInputItem>) -> Seq<InputModel> {
    input.map_values(|item: CodexInputItem| item@)
}

/// The input of a turn that analyses a batch: the prompt, and each image in its order.
pub open spec fn analysis_inputs(
    prompt: Seq<char>,
    folder: Seq<char>,
    images: Seq<PendingImage>,
) -> Seq<InputModel> {
    seq![InputModel::Text { text: prompt }] + images.map_values(
        |image: PendingImage|
            InputModel::LocalImage { path: paths::below(folder, image.relative_path@) },
    )
}

/// The input of a turn that analyses a batch.
pub fn analysis_input(prompt: &str, folder_path: &str, images: &Vec<PendingImage>) -> (res: Vec<
    CodexInputItem,
>)
    ensures
        input_models(res@) == analysis_inputs(prompt@, folder_path@, images@),
{
    let mut input: Vec<CodexInputItem> = Vec::new();
    input.push(CodexInputItem::Text { text: prompt.to_owned() });
    let ghost all = analysis_inputs(prompt@, folder_path@, images@);
    let mut i: usize = 0;
    proof {
        assert(input_models(input@) =~= all.take(1));
    }
    while i < images.len()
        invariant
            i <= images.len(),
            all == analysis_inputs(prompt@, folder_path@, images@),
            all.len() == images.len() + 1,
            input_models(input@) =~= all.take(i + 1),
        decreases images.len() - i,
    {
        let path = paths::join(folder_path, images[i].relative_path.as_str());
        let ghost before = input_models(input@);
        proof {
            assert(all[i + 1] == (InputModel::LocalImage { path: path@ }));
        }
        let item = CodexInputItem::LocalImage { path };
        proof {
            assert(item@ == all[i + 1]);
        }
        input.push(item);
        proof {
            assert(input_models(input@) =~= before.push(all[i + 1]));
        }
        i += 1;
    }
    proof {
        assert(all.take(i + 1) =~= all);
    }
    input
}

/// An image as the record of an analysis names it.
#[derive(Debug)]
pub struct ImageAnalysisImage {
    pub file_name: String,
    pub mime_type: String,
    pub relative_path: String,
    pub source_message_id: i32,
}

/// The record of an analysis.
#[derive(Debug)]
pub struct ImageAnalysisArtifact {
    pub batch_id: String,
    pub created_at: String,
    pub image_count: usize,
    pub images: Vec<ImageAnalysisImage>,
    pub prompt: String,
    pub result_text: String,
}

/// Whether an image of a record is an image of a batch.
pub open spec fn is_same_image(analysed: ImageAnalysisImage, image: PendingImage) -> bool {
    &&& analysed.file_name == image.file_name
    &&& analysed.mime_type == image.mime_type
    &&& analysed.relative_path == image.relative_path
    &&& analysed.source_message_id == image.source_message_id
}

/// The record of the analysis of a batch.
pub fn analysis_artifact(
    batch: &PendingImageBatch,
    created_at: String,
    prompt: String,
    result_text: String,
) -> (res: ImageAnalysisArtifact)
    ensures
        res.batch_id == batch.batch_id,
        res.created_at == created_at,
        res.prompt == prompt,
        res.result_text == result_text,
        res.image_count == batch.images.len(),
        res.images@.len() == batch.images@.len(),
        forall|i: int|
            0 <= i < batch.images@.len() ==> is_same_image(#[trigger] res.images@[i], batch.images@[i]),
{
    let mut images: Vec<ImageAnalysisImage> = Vec::new();
    let mut i: usize = 0;
    while i < batch.images.len()
        invariant
            i <= batch.images.len(),
            images@.len() == i,
            forall|k: int|
                0 <= k < i ==> is_same_image(#[trigger] images@[k], batch.images@[k]),
        decreases batch.images.len() - i,
    {
        let image = &batch.images[i];
        images.push(
            ImageAnalysisImage {
                file_name: image.file_name.clone(),
                mime_type: image.mime_type.clone(),
                relative_path: image.relative_path.clone(),
                source_message_id: image.source_message_id,
            },
        );
        i += 1;
    }
    ImageAnalysisArtifact {
        batch_id: batch.batch_id.clone(),
        created_at,
        image_count: batch.images.len(),
        images,
        prompt,
        result_text,
    }
}

/// What a turn that analysed images said: its reply, or else what its preview had last.
#[derive(Debug)]
pub enum AnalysisText {
    Reply(String),
    Preview(String),
}

impl Clone for AnalysisText {
    fn clone(&self) -> (res: Self)
        ensures
            res == *self,
    {
        match self {
            AnalysisText::Reply(reply) => AnalysisText::Reply(reply.clone()),
            AnalysisText::Preview(preview) => AnalysisText::Preview(preview.clone()),
        }
    }
}

impl AnalysisText {
    /// What the turn said.
    pub open spec fn body(self) -> Seq<char> {
        match self {
            AnalysisText::Reply(reply) => reply@,
            AnalysisText::Preview(preview) => text::or_text(
                text::filled(Some(preview@)),
                "Codex completed image analysis without a final answer."@,
            ),
        }
    }

    /// What the turn said.
    pub fn to_text(&self) -> (res: String)
        ensures
            res@ == self.body(),
    {
        match self {
            AnalysisText::Reply(reply) => reply.clone(),
            AnalysisText::Preview(preview) => match text::trim_filled(Some(preview.as_str())) {
                Some(preview) => preview.to_owned(),
                None => "Codex completed image analysis without a final answer.".to_owned(),
            },
        }
    }
}

/// What is put on record about a turn that failed.
pub fn analysis_failure_log(reason: &str) -> (res: String)
    ensures
        res@ == "Codex image analysis failed: "@ + reason@,
{
    text::concat2("Codex image analysis failed: ", reason)
}

/// What a user is told of a turn that failed.
pub fn analysis_failure_warning(reason: &str) -> (res: String)
    ensures
        res@ == "Image handling failed: "@ + reason@,
{
    text::concat2("Image handling failed: ", reason)
}

/// How far the turn that analyses a batch has come.
#[derive(Debug)]
pub enum ImageTurnStage {
    OpeningWorkspace { target: TurnTarget },
    ReadingMode { target: TurnTarget },
    Running { target: TurnTarget },
    RecordingFailure { reason: String },
    StoppingFailed { reason: String },
    MarkingBroken { reason: String },
    LoggingFailure { reason: String },
    Retitling { reason: String },
    RecordingEnd {
        session_id: SessionId,
        execution: SessionExecutionSnapshot,
        reply: Option<String>,
    },
    MarkingVerified {
        session_id: SessionId,
        execution: SessionExecutionSnapshot,
        reply: Option<String>,
    },
    UpdatingExecution { session_id: SessionId, reply: Option<String> },
    Completing { session_id: SessionId, said: AnalysisText },
    ReadingPreview { session_id: SessionId },
    Stopping { session_id: SessionId, said: AnalysisText, finalized: bool },
    Writing { session_id: SessionId, said: AnalysisText, finalized: bool },
    Clearing { session_id: SessionId, said: AnalysisText, finalized: bool },
    LoggingReply { session_id: SessionId, said: AnalysisText, finalized: bool },
    Mirroring { said: AnalysisText, finalized: bool },
    Replying,
    Last,
    Finished,
}

/// What came of a step.
#[derive(Debug)]
pub enum ImageTurnEvent {
    Done,
    /// The execution mode of the workspace.
    Mode(ExecutionMode),
    /// The turn ended, whether by itself or by an interrupt, with the permissions that it reported
    /// to have run with and the reply that is to be seen, if there is one.
    Ended { execution: SessionExecutionSnapshot, reply: Option<String> },
    /// The preview was completed, or could not be.
    Completed { finalized: bool },
    /// What the preview had last.
    Preview { text: String },
    Failed(String),
}

/// What is to be done next.
#[derive(Debug)]
pub enum ImageTurnStep {
    OpenWorkspace { workspace: String },
    /// Read the execution mode of the workspace.
    ReadMode { workspace: String },
    Run { execution: ExecutionMode, target: TurnTarget },
    RecordFailure { target: TurnTarget },
    StopHeartbeats,
    MarkBroken { reason: String },
    LogFailure { reason: String },
    Retitle,
    RecordEnd { target: TurnTarget, reply: Option<String> },
    MarkVerified,
    /// Keep with the session which permissions the turn ran with.
    UpdateExecution { execution: SessionExecutionSnapshot },
    CompletePreview { reply: String },
    ReadPreview,
    WriteAnalysis { said: AnalysisText },
    ClearBatch,
    LogReply { said: AnalysisText },
    Mirror { session_id: SessionId, said: AnalysisText },
    SendReply { said: AnalysisText },
    DispatchOutbox,
    Finish { outcome: Result<(), FlowError> },
}

/// The first step of the turn that analyses a batch, in a session that it continues.
pub fn begin_image_turn(target: TurnTarget) -> (res: (ImageTurnStage, ImageTurnStep))
    ensures
        res == (
            ImageTurnStage::OpeningWorkspace { target },
            ImageTurnStep::OpenWorkspace { workspace: target.workspace },
        ),
{
    let workspace = target.workspace.clone();
    (ImageTurnStage::OpeningWorkspace { target }, ImageTurnStep::OpenWorkspace { workspace })
}

/// The end of the turn that analyses a batch.
pub open spec fn image_turn_ended(outcome: Result<(), FlowError>) -> (ImageTurnStage, ImageTurnStep) {
    (ImageTurnStage::Finished, ImageTurnStep::Finish { outcome })
}

fn end_image_turn(outcome: Result<(), FlowError>) -> (res: (ImageTurnStage, ImageTurnStep))
    ensures
        res == image_turn_ended(outcome),
{
    (ImageTurnStage::Finished, ImageTurnStep::Finish { outcome })
}

/// What follows from an event.
pub open spec fn image_turn_next(stage: ImageTurnStage, event: ImageTurnEvent) -> (ImageTurnStage, ImageTurnStep) {
    match (stage, event) {
        (ImageTurnStage::Finished, _) => image_turn_ended(Err(FlowError::OutOfTurn)),
        (ImageTurnStage::Running { target }, ImageTurnEvent::Failed(reason)) => (
            ImageTurnStage::RecordingFailure { reason },
            ImageTurnStep::RecordFailure { target },
        ),
        (ImageTurnStage::RecordingFailure { reason }, _) => (
            ImageTurnStage::StoppingFailed { reason },
            ImageTurnStep::StopHeartbeats,
        ),
        (ImageTurnStage::Retitling { reason }, _) => image_turn_ended(
            Err(FlowError::Outside(reason)),
        ),
        (_, ImageTurnEvent::Failed(reason)) => image_turn_ended(Err(FlowError::Outside(reason))),
        (ImageTurnStage::OpeningWorkspace { target }, ImageTurnEvent::Done) => (
            ImageTurnStage::ReadingMode { target: target },
            ImageTurnStep::ReadMode { workspace: target.workspace },
        ),
        (ImageTurnStage::ReadingMode { target }, ImageTurnEvent::Mode(execution)) => (
            ImageTurnStage::Running { target: target },
            ImageTurnStep::Run { execution, target },
        ),
        (ImageTurnStage::StoppingFailed { reason }, ImageTurnEvent::Done) => (
            ImageTurnStage::MarkingBroken { reason: reason },
            ImageTurnStep::MarkBroken { reason },
        ),
        (ImageTurnStage::MarkingBroken { reason }, ImageTurnEvent::Done) => (
            ImageTurnStage::LoggingFailure { reason: reason },
            ImageTurnStep::LogFailure { reason },
        ),
        (ImageTurnStage::LoggingFailure { reason }, ImageTurnEvent::Done) => (
            ImageTurnStage::Retitling { reason },
            ImageTurnStep::Retitle,
        ),
        (ImageTurnStage::Running { target }, ImageTurnEvent::Ended { execution, reply }) => (
            ImageTurnStage::RecordingEnd {
                session_id: target.session_id,
                execution,
                reply: reply,
            },
            ImageTurnStep::RecordEnd { target, reply },
        ),
        (
            ImageTurnStage::RecordingEnd { session_id, execution, reply },
            ImageTurnEvent::Done,
        ) => (
            ImageTurnStage::MarkingVerified { session_id, execution, reply },
            ImageTurnStep::MarkVerified,
        ),
        (
            ImageTurnStage::MarkingVerified { session_id, execution, reply },
            ImageTurnEvent::Done,
        ) => (
            ImageTurnStage::UpdatingExecution { session_id, reply },
            ImageTurnStep::UpdateExecution { execution },
        ),
        (
            ImageTurnStage::UpdatingExecution { session_id, reply: Some(reply) },
            ImageTurnEvent::Done,
        ) => (
            ImageTurnStage::Completing { session_id, said: AnalysisText::Reply(reply) },
            ImageTurnStep::CompletePreview { reply },
        ),
        (ImageTurnStage::UpdatingExecution { session_id, reply: None }, ImageTurnEvent::Done) => (
            ImageTurnStage::ReadingPreview { session_id },
            ImageTurnStep::ReadPreview,
        ),
        (
            ImageTurnStage::Completing { session_id, said },
            ImageTurnEvent::Completed { finalized },
        ) => (
            ImageTurnStage::Stopping { session_id, said, finalized },
            ImageTurnStep::StopHeartbeats,
        ),
        (ImageTurnStage::ReadingPreview { session_id }, ImageTurnEvent::Preview { text }) => (
            ImageTurnStage::Stopping {
                session_id,
                said: AnalysisText::Preview(text),
                finalized: false,
            },
            ImageTurnStep::StopHeartbeats,
        ),
        (ImageTurnStage::Stopping { session_id, said, finalized }, ImageTurnEvent::Done) => (
            ImageTurnStage::Writing { session_id, said: said, finalized },
            ImageTurnStep::WriteAnalysis { said },
        ),
        (ImageTurnStage::Writing { session_id, said, finalized }, ImageTurnEvent::Done) => (
            ImageTurnStage::Clearing { session_id, said, finalized },
            ImageTurnStep::ClearBatch,
        ),
        (ImageTurnStage::Clearing { session_id, said, finalized }, ImageTurnEvent::Done) => (
            ImageTurnStage::LoggingReply { session_id, said: said, finalized },
            ImageTurnStep::LogReply { said },
        ),
        (ImageTurnStage::LoggingReply { session_id, said, finalized }, ImageTurnEvent::Done) => (
            ImageTurnStage::Mirroring { said: said, finalized },
            ImageTurnStep::Mirror { session_id, said },
        ),
        (ImageTurnStage::Mirroring { said, finalized }, ImageTurnEvent::Done) => if finalized {
            (ImageTurnStage::Last, ImageTurnStep::DispatchOutbox)
        } else {
            (ImageTurnStage::Replying, ImageTurnStep::SendReply { said })
        },
        (ImageTurnStage::Replying, ImageTurnEvent::Done) => (
            ImageTurnStage::Last,
            ImageTurnStep::DispatchOutbox,
        ),
        (ImageTurnStage::Last, ImageTurnEvent::Done) => image_turn_ended(Ok(())),
        _ => image_turn_ended(Err(FlowError::OutOfTurn)),
    }
}

/// The next step of the turn that analyses a batch.
pub fn advance_image_turn(stage: ImageTurnStage, event: ImageTurnEvent) -> (res: (ImageTurnStage, ImageTurnStep))
    ensures
        res == image_turn_next(stage, event),
{
    match (stage, event) {
        (ImageTurnStage::Finished, _) => end_image_turn(Err(FlowError::OutOfTurn)),
        (ImageTurnStage::Running { target }, ImageTurnEvent::Failed(reason)) => (
            ImageTurnStage::RecordingFailure { reason },
            ImageTurnStep::RecordFailure { target },
        ),
        (ImageTurnStage::RecordingFailure { reason }, _) => (
            ImageTurnStage::StoppingFailed { reason },
            ImageTurnStep::StopHeartbeats,
        ),
        (ImageTurnStage::Retitling { reason }, _) => end_image_turn(
            Err(FlowError::Outside(reason)),
        ),
        (_, ImageTurnEvent::Failed(reason)) => end_image_turn(Err(FlowError::Outside(reason))),
        (ImageTurnStage::OpeningWorkspace { target }, ImageTurnEvent::Done) => (
            ImageTurnStage::ReadingMode { target: target.copy() },
            ImageTurnStep::ReadMode { workspace: target.workspace },
        ),
        (ImageTurnStage::ReadingMode { target }, ImageTurnEvent::Mode(execution)) => (
            ImageTurnStage::Running { target: target.copy() },
            ImageTurnStep::Run { execution, target },
        ),
        (ImageTurnStage::StoppingFailed { reason }, ImageTurnEvent::Done) => (
            ImageTurnStage::MarkingBroken { reason: reason.clone() },
            ImageTurnStep::MarkBroken { reason },
        ),
        (ImageTurnStage::MarkingBroken { reason }, ImageTurnEvent::Done) => (
            ImageTurnStage::LoggingFailure { reason: reason.clone() },
            ImageTurnStep::LogFailure { reason },
        ),
        (ImageTurnStage::LoggingFailure { reason }, ImageTurnEvent::Done) => (
            ImageTurnStage::Retitling { reason },
            ImageTurnStep::Retitle,
        ),
        (ImageTurnStage::Running { target }, ImageTurnEvent::Ended { execution, reply }) => (
            ImageTurnStage::RecordingEnd {
                session_id: target.session_id.copy(),
                execution,
                reply: text::clone_opt(&reply),
            },
            ImageTurnStep::RecordEnd { target, reply },
        ),
        (
            ImageTurnStage::RecordingEnd { session_id, execution, reply },
            ImageTurnEvent::Done,
        ) => (
            ImageTurnStage::MarkingVerified { session_id, execution, reply },
            ImageTurnStep::MarkVerified,
        ),
        (
            ImageTurnStage::MarkingVerified { session_id, execution, reply },
            ImageTurnEvent::Done,
        ) => (
            ImageTurnStage::UpdatingExecution { session_id, reply },
            ImageTurnStep::UpdateExecution { execution },
        ),
        (
            ImageTurnStage::UpdatingExecution { session_id, reply: Some(reply) },
            ImageTurnEvent::Done,
        ) => (
            ImageTurnStage::Completing { session_id, said: AnalysisText::Reply(reply.clone()) },
            ImageTurnStep::CompletePreview { reply },
        ),
        (ImageTurnStage::UpdatingExecution { session_id, reply: None }, ImageTurnEvent::Done) => (
            ImageTurnStage::ReadingPreview { session_id },
            ImageTurnStep::ReadPreview,
        ),
        (
            ImageTurnStage::Completing { session_id, said },
            ImageTurnEvent::Completed { finalized },
        ) => (
            ImageTurnStage::Stopping { session_id, said, finalized },
            ImageTurnStep::StopHeartbeats,
        ),
        (ImageTurnStage::ReadingPreview { session_id }, ImageTurnEvent::Preview { text }) => (
            ImageTurnStage::Stopping {
                session_id,
                said: AnalysisText::Preview(text),
                finalized: false,
            },
            ImageTurnStep::StopHeartbeats,
        ),
        (ImageTurnStage::Stopping { session_id, said, finalized }, ImageTurnEvent::Done) => (
            ImageTurnStage::Writing { session_id, said: said.clone(), finalized },
            ImageTurnStep::WriteAnalysis { said },
        ),
        (ImageTurnStage::Writing { session_id, said, finalized }, ImageTurnEvent::Done) => (
            ImageTurnStage::Clearing { session_id, said, finalized },
            ImageTurnStep::ClearBatch,
        ),
        (ImageTurnStage::Clearing { session_id, said, finalized }, ImageTurnEvent::Done) => (
            ImageTurnStage::LoggingReply { session_id, said: said.clone(), finalized },
            ImageTurnStep::LogReply { said },
        ),
        (ImageTurnStage::LoggingReply { session_id, said, finalized }, ImageTurnEvent::Done) => (
            ImageTurnStage::Mirroring { said: said.clone(), finalized },
            ImageTurnStep::Mirror { session_id, said },
        ),
        (ImageTurnStage::Mirroring { said, finalized }, ImageTurnEvent::Done) => if finalized {
            (ImageTurnStage::Last, ImageTurnStep::DispatchOutbox)
        } else {
            (ImageTurnStage::Replying, ImageTurnStep::SendReply { said })
        },
        (ImageTurnStage::Replying, ImageTurnEvent::Done) => (
            ImageTurnStage::Last,
            ImageTurnStep::DispatchOutbox,
        ),
        (ImageTurnStage::Last, ImageTurnEvent::Done) => end_image_turn(Ok(())),
        _ => end_image_turn(Err(FlowError::OutOfTurn)),
    }
}

/// How many steps the turn that analyses a batch can still take.
pub open spec fn image_turn_steps_left(stage: ImageTurnStage) -> nat {
    match stage {
        ImageTurnStage::OpeningWorkspace { .. } => 14,
        ImageTurnStage::ReadingMode { .. } => 13,
        ImageTurnStage::Running { .. } => 12,
        ImageTurnStage::RecordingFailure { .. } => 6,
        ImageTurnStage::StoppingFailed { .. } => 5,
        ImageTurnStage::MarkingBroken { .. } => 4,
        ImageTurnStage::LoggingFailure { .. } => 3,
        ImageTurnStage::Retitling { .. } => 2,
        ImageTurnStage::RecordingEnd { .. } => 11,
        ImageTurnStage::MarkingVerified { .. } => 10,
        ImageTurnStage::UpdatingExecution { .. } => 9,
        ImageTurnStage::Completing { .. } => 8,
        ImageTurnStage::ReadingPreview { .. } => 8,
        ImageTurnStage::Stopping { .. } => 7,
        ImageTurnStage::Writing { .. } => 6,
        ImageTurnStage::Clearing { .. } => 5,
        ImageTurnStage::LoggingReply { .. } => 4,
        ImageTurnStage::Mirroring { .. } => 3,
        ImageTurnStage::Replying => 2,
        ImageTurnStage::Last => 1,
        ImageTurnStage::Finished => 0,
    }
}

/// Whatever comes of its steps, the turn that analyses a batch ends.
pub proof fn law_image_turn_ends(stage: ImageTurnStage, event: ImageTurnEvent)
    ensures
        image_turn_next(stage, event).1 is Finish <==> image_turn_next(stage, event).0 is Finished,
        stage !is Finished ==> image_turn_steps_left(image_turn_next(stage, event).0) < image_turn_steps_left(stage),
        stage is Finished ==> image_turn_next(stage, event).0 is Finished,
{
}

/// A batch is cleared only once the turn ended and its analysis was written: what a failed turn
/// leaves can be analysed again.
pub proof fn law_failed_analysis_keeps_the_batch(stage: ImageTurnStage, event: ImageTurnEvent)
    ensures
        image_turn_next(stage, event).1 is ClearBatch ==> stage is Writing && event is Done,
        image_turn_next(stage, event).0 is Writing ==> stage is Stopping,
        image_turn_next(stage, event).0 is Stopping ==> stage is Completing || stage
            is ReadingPreview,
        image_turn_next(stage, event).1 is MarkBroken ==> stage is StoppingFailed,
        image_turn_next(stage, event).0 is StoppingFailed ==> stage is RecordingFailure,
        image_turn_next(stage, event).0 is RecordingFailure ==> stage is Running && event is Failed,
{
}

/// The reply is seen once: it is sent only if the preview was not completed with it.
pub proof fn law_image_reply_is_seen_once(stage: ImageTurnStage, event: ImageTurnEvent)
    ensures
        image_turn_next(stage, event).1 is SendReply ==> (stage matches ImageTurnStage::Mirroring {
            said,
            finalized,
        } && !finalized),
{
}

/// The turn that analyses a batch runs in the mode that was read of its workspace, once it was read.
pub proof fn law_analyses_run_in_the_mode_of_their_workspace(
    stage: ImageTurnStage,
    event: ImageTurnEvent,
)
    ensures
        image_turn_next(stage, event).1 matches ImageTurnStep::Run { execution, target } ==> stage
            == (ImageTurnStage::ReadingMode { target }) && event == ImageTurnEvent::Mode(execution),
        image_turn_next(stage, event).0 matches ImageTurnStage::ReadingMode { target }
            ==> image_turn_next(stage, event).1 == (ImageTurnStep::ReadMode {
            workspace: target.workspace,
        }),
{
}

/// The permissions that are kept with a session behind the analysis of a batch are those that the
/// turn reported; behind a turn that failed none are kept.
pub proof fn law_permissions_of_analyses_are_kept(
    target: TurnTarget,
    execution: SessionExecutionSnapshot,
    reply: Option<String>,
    stage: ImageTurnStage,
    event: ImageTurnEvent,
)
    ensures
        ({
            let recorded = image_turn_next(
                ImageTurnStage::Running { target },
                ImageTurnEvent::Ended { execution, reply },
            );
            let verified = image_turn_next(recorded.0, ImageTurnEvent::Done);
            image_turn_next(verified.0, ImageTurnEvent::Done).1 == (
            ImageTurnStep::UpdateExecution { execution })
        }),
        image_turn_next(stage, event).1 is UpdateExecution ==> stage is MarkingVerified,
        image_turn_next(stage, event).0 is MarkingVerified ==> stage is RecordingEnd,
        image_turn_next(stage, event).0 is RecordingEnd ==> stage is Running && event is Ended,
{
}

/// The session that the analysis of a batch continues, as long as something is still to be done
/// about it.
pub open spec fn image_turn_session(stage: ImageTurnStage) -> Option<SessionId> {
    match stage {
        ImageTurnStage::OpeningWorkspace { target } => Some(target.session_id),
        ImageTurnStage::ReadingMode { target } => Some(target.session_id),
        ImageTurnStage::Running { target } => Some(target.session_id),
        ImageTurnStage::RecordingEnd { session_id, .. } => Some(session_id),
        ImageTurnStage::MarkingVerified { session_id, .. } => Some(session_id),
        ImageTurnStage::UpdatingExecution { session_id, .. } => Some(session_id),
        ImageTurnStage::Completing { session_id, .. } => Some(session_id),
        ImageTurnStage::ReadingPreview { session_id } => Some(session_id),
        ImageTurnStage::Stopping { session_id, .. } => Some(session_id),
        ImageTurnStage::Writing { session_id, .. } => Some(session_id),
        ImageTurnStage::Clearing { session_id, .. } => Some(session_id),
        ImageTurnStage::LoggingReply { session_id, .. } => Some(session_id),
        _ => None,
    }
}

/// The analysis of a batch continues one session to its end: what is recorded and mirrored for it
/// is about the session that it was begun with.
pub proof fn law_image_turns_keep_their_session(stage: ImageTurnStage, event: ImageTurnEvent)
    ensures
        image_turn_session(image_turn_next(stage, event).0) is Some ==> image_turn_session(
            image_turn_next(stage, event).0,
        ) == image_turn_session(stage),
        match image_turn_next(stage, event).1 {
            ImageTurnStep::Run { target, .. } => image_turn_session(stage) == Some(
                target.session_id,
            ),
            ImageTurnStep::RecordFailure { target } => image_turn_session(stage) == Some(
                target.session_id,
            ),
            ImageTurnStep::RecordEnd { target, .. } => image_turn_session(stage) == Some(
                target.session_id,
            ),
            ImageTurnStep::Mirror { session_id, .. } => image_turn_session(stage) == Some(
                session_id,
            ),
            _ => true,
        },
{
}

/// A message that shows a batch is changed; where that fails, or where there is none yet, one is sent
/// and remembered as the one that shows the batch.
pub proof fn law_batches_are_shown_in_one_message(message_id: i32, reason: String)
    ensures
        batch_message_next(BatchMessageStage::Editing, BatchMessageEvent::Done).1 == (
        BatchMessageStep::Finish { outcome: Ok(()) }),
        batch_message_next(BatchMessageStage::Editing, BatchMessageEvent::Failed(reason)).1 is Send,
        ({
            let sent = batch_message_next(
                batch_message_next(
                    BatchMessageStage::Editing,
                    BatchMessageEvent::Failed(reason),
                ).0,
                BatchMessageEvent::Sent { message_id },
            );
            &&& sent.1 == (BatchMessageStep::Record { message_id })
            &&& batch_message_next(sent.0, BatchMessageEvent::Done).1 == (BatchMessageStep::Finish {
                outcome: Ok(()),
            })
        }),
        batch_message_next(BatchMessageStage::Sending, BatchMessageEvent::Failed(reason)).1 == (
        BatchMessageStep::Finish { outcome: Err(FlowError::Outside(reason)) }),
{
}

/// An image of a usable thread is downloaded and put into the batch before the batch is shown and the
/// image is put on record. Only a batch that is shown is put on record too, with the number of its
/// images, and a user whose turn runs is told so at the end.
pub proof fn law_images_are_queued_in_order(
    busy: Option<SessionCurrentStatus>,
    shown: bool,
    images: usize,
)
    ensures
        ({
            let opened = queue_next(QueueStage::Preparing { busy }, QueueEvent::Done);
            let loading = queue_next(opened.0, QueueEvent::Done);
            let loaded = queue_next(loading.0, QueueEvent::Done);
            let added = queue_next(loaded.0, QueueEvent::Done);
            let seen = queue_next(added.0, QueueEvent::Shown { shown, images });
            let logged = queue_next(seen.0, QueueEvent::Done);
            let closed = if shown {
                queue_next(logged.0, QueueEvent::Done)
            } else {
                logged
            };
            &&& opened.1 is OpenBatch
            &&& loading.1 is Download
            &&& loaded.1 is Append
            &&& added.1 is ShowBatch
            &&& seen.1 is LogImage
            &&& shown ==> logged.1 == (QueueStep::LogBatch { images })
            &&& busy is None ==> closed.1 == (QueueStep::Finish { outcome: Ok(()) })
            &&& busy matches Some(busy) ==> closed.1 == (QueueStep::Reply {
                reply: ImageReply::Busy { busy },
            })
        }),
{
}

/// Who sends an image into an archived thread, or into one whose session cannot be used, is told so;
/// else the runtime of the workspace of the thread is made to run.
pub proof fn law_images_are_refused_with_a_reason(facts: ThreadFacts)
    ensures
        ({
            let step = queue_next(QueueStage::Loading, QueueEvent::Thread(facts)).1;
            &&& facts.state.lifecycle_status == LifecycleStatus::Archived ==> step == (
            QueueStep::Reply { reply: ImageReply::Archived })
            &&& facts.state.lifecycle_status != LifecycleStatus::Archived && facts.usable() is None
                ==> step == (QueueStep::Reply {
                reply: ImageReply::Unusable { state: facts.state, session: facts.session },
            })
            &&& facts.state.lifecycle_status != LifecycleStatus::Archived && facts.usable() is Some
                ==> (facts.session->0.workspace_cwd matches Some(workspace) ==> step == (
            QueueStep::PrepareRuntime { workspace }))
        }),
        ImageReply::Archived.body() == "This thread is archived."@,
        AnalysisReply::Archived.body() == "This thread is archived."@,
        AnalysisReply::Starting.body() == "Starting image analysis..."@,
{
}

/// Who presses the button of a batch is always answered; a request that came with a text is refused
/// in silence, but for a turn that runs.
pub proof fn law_presses_of_the_button_are_answered(
    request: AnalysisRequest,
    facts: ThreadFacts,
    busy: SessionCurrentStatus,
    target: TurnTarget,
)
    ensures
        ({
            let loaded = analysis_next(
                AnalysisStage::Loading { request },
                AnalysisEvent::Thread(facts),
            );
            let routed = analysis_next(
                AnalysisStage::Routing { request },
                AnalysisEvent::Thread(facts),
            );
            let waiting = analysis_next(
                AnalysisStage::Preparing { request, busy: Some(busy), target },
                AnalysisEvent::Done,
            );
            let silent = AnalysisStep::Finish { outcome: Ok(()) };
            let unusable = AnalysisReply::Unusable { state: facts.state, session: facts.session };
            &&& facts.state.lifecycle_status == LifecycleStatus::Archived ==> loaded.1 == if request.by_button {
                AnalysisStep::Answer { reply: AnalysisReply::Archived }
            } else {
                silent
            }
            &&& facts.state.lifecycle_status != LifecycleStatus::Archived ==> loaded.1 is Route
            &&& facts.usable() is None ==> routed.1 == if request.by_button {
                AnalysisStep::Answer { reply: unusable }
            } else {
                silent
            }
            &&& waiting.1 == if request.by_button {
                AnalysisStep::Answer { reply: AnalysisReply::Busy { busy } }
            } else {
                AnalysisStep::Send { reply: AnalysisReply::Busy { busy } }
            }
        }),
{
}

/// The batch that was asked for is analysed in an idle thread: the press of the button is answered
/// first, then the turn is put on record and started. Another batch, or an empty one, is not.
pub proof fn law_asked_batches_are_analysed(
    request: AnalysisRequest,
    target: TurnTarget,
    batch: PendingImageBatch,
)
    ensures
        ({
            let idle = analysis_next(
                AnalysisStage::Preparing { request, busy: None, target },
                AnalysisEvent::Done,
            );
            let read = analysis_next(idle.0, AnalysisEvent::Batch(Some(batch)));
            let recorded = if request.by_button {
                analysis_next(read.0, AnalysisEvent::Done)
            } else {
                read
            };
            let asked = batch.batch_id@ == request.batch_id@ && batch.images@.len() > 0;
            &&& idle.1 is ReadBatch
            &&& !asked ==> read.1 == (AnalysisStep::Finish { outcome: Ok(()) })
            &&& analysis_next(idle.0, AnalysisEvent::Batch(None)).1 == (AnalysisStep::Finish {
                outcome: Ok(()),
            })
            &&& asked && request.by_button ==> read.1 == (AnalysisStep::Answer {
                reply: AnalysisReply::Starting,
            })
            &&& asked ==> recorded.1 == (AnalysisStep::RecordStart { target })
            &&& asked ==> analysis_next(recorded.0, AnalysisEvent::Done).1 == (
            AnalysisStep::StartTurn { target, batch })
        }),
{
}

/// A turn that analyses a batch gets the prompt first and then every image, in their order and each
/// from the folder of the thread.
pub proof fn law_turns_get_every_image(
    prompt: Seq<char>,
    folder: Seq<char>,
    images: Seq<PendingImage>,
    i: int,
)
    ensures
        analysis_inputs(prompt, folder, images).len() == images.len() + 1,
        analysis_inputs(prompt, folder, images)[0] == (InputModel::Text { text: prompt }),
        0 <= i < images.len() ==> analysis_inputs(prompt, folder, images)[i + 1] == (
        InputModel::LocalImage { path: paths::below(folder, images[i].relative_path@) }),
{
}

/// What a turn said about a batch is its reply; where it gave none, it is what its preview had last,
/// and a preview without a text says that there was no answer.
pub proof fn law_analyses_say_the_reply(
    target: TurnTarget,
    execution: SessionExecutionSnapshot,
    reply: Option<String>,
    preview: String,
    finalized: bool,
)
    ensures
        ({
            let ended = image_turn_next(
                ImageTurnStage::Running { target },
                ImageTurnEvent::Ended { execution, reply },
            );
            let verified = image_turn_next(ended.0, ImageTurnEvent::Done);
            let updated = image_turn_next(verified.0, ImageTurnEvent::Done);
            let looked = image_turn_next(updated.0, ImageTurnEvent::Done);
            let said = match reply {
                Some(reply) => AnalysisText::Reply(reply),
                None => AnalysisText::Preview(preview),
            };
            let known = match reply {
                Some(_) => image_turn_next(looked.0, ImageTurnEvent::Completed { finalized }),
                None => image_turn_next(looked.0, ImageTurnEvent::Preview { text: preview }),
            };
            let stopped = image_turn_next(known.0, ImageTurnEvent::Done);
            let written = image_turn_next(stopped.0, ImageTurnEvent::Done);
            let cleared = image_turn_next(written.0, ImageTurnEvent::Done);
            let logged = image_turn_next(cleared.0, ImageTurnEvent::Done);
            let mirrored = image_turn_next(logged.0, ImageTurnEvent::Done);
            &&& ended.1 == (ImageTurnStep::RecordEnd { target, reply })
            &&& reply matches Some(reply) ==> looked.1 == (ImageTurnStep::CompletePreview { reply })
            &&& reply is None ==> looked.1 is ReadPreview
            &&& known.1 is StopHeartbeats
            &&& stopped.1 == (ImageTurnStep::WriteAnalysis { said })
            &&& written.1 is ClearBatch
            &&& cleared.1 == (ImageTurnStep::LogReply { said })
            &&& logged.1 == (ImageTurnStep::Mirror { session_id: target.session_id, said })
            &&& reply is Some && finalized ==> mirrored.1 is DispatchOutbox
            &&& reply is None || !finalized ==> mirrored.1 == (ImageTurnStep::SendReply { said })
        }),
        reply matches Some(reply) ==> AnalysisText::Reply(reply).body() == reply@,
        !text::is_blank(preview@) ==> AnalysisText::Preview(preview).body() == text::trimmed(
            preview@,
        ),
        text::is_blank(preview@) ==> AnalysisText::Preview(preview).body()
            == "Codex completed image analysis without a final answer."@,
{
}

/// A turn that failed is put on record, its binding is marked as broken for that reason, the reason is
/// logged, and with it the turn ends.
pub proof fn law_failed_analyses_are_marked(
    target: TurnTarget,
    reason: String,
    first: ImageTurnEvent,
    last: ImageTurnEvent,
)
    ensures
        ({
            let failed = image_turn_next(
                ImageTurnStage::Running { target },
                ImageTurnEvent::Failed(reason),
            );
            let recorded = image_turn_next(failed.0, first);
            let stopped = image_turn_next(recorded.0, ImageTurnEvent::Done);
            let marked = image_turn_next(stopped.0, ImageTurnEvent::Done);
            let logged = image_turn_next(marked.0, ImageTurnEvent::Done);
            &&& failed.1 == (ImageTurnStep::RecordFailure { target })
            &&& recorded.1 is StopHeartbeats
            &&& stopped.1 == (ImageTurnStep::MarkBroken { reason })
            &&& marked.1 == (ImageTurnStep::LogFailure { reason })
            &&& logged.1 is Retitle
            &&& image_turn_next(logged.0, last).1 == (ImageTurnStep::Finish {
                outcome: Err(FlowError::Outside(reason)),
            })
        }),
{
}

/// An image or an analysis whose binding names no workspace fails for that.
pub proof fn law_images_need_a_workspace(request: AnalysisRequest, facts: ThreadFacts)
    requires
        facts.state.lifecycle_status != LifecycleStatus::Archived,
        facts.usable() is Some,
        facts.session is Some,
        facts.session->0.workspace_cwd is None,
    ensures
        queue_next(QueueStage::Loading, QueueEvent::Thread(facts)).1 == (QueueStep::Finish {
            outcome: Err(FlowError::MissingWorkspace),
        }),
        analysis_next(AnalysisStage::Routing { request }, AnalysisEvent::Thread(facts)).1 == (
        AnalysisStep::Finish { outcome: Err(FlowError::MissingWorkspace) }),
{
}

/// Nothing is taken that was not asked for: what has ended stays so, and an event of another step ends
/// the showing, the taking in or the analysis; a step that fails ends it for the reason of the failure.
pub proof fn law_images_take_only_what_was_asked_for(
    shown: BatchMessageEvent,
    queued: QueueEvent,
    analysed: AnalysisEvent,
    turn: ImageTurnEvent,
    target: TurnTarget,
    request: AnalysisRequest,
    reason: String,
)
    ensures
        batch_message_next(BatchMessageStage::Finished, shown).1 == (BatchMessageStep::Finish {
            outcome: Err(FlowError::OutOfTurn),
        }),
        shown is Done ==> batch_message_next(BatchMessageStage::Sending, shown).1 == (
        BatchMessageStep::Finish { outcome: Err(FlowError::OutOfTurn) }),
        queue_next(QueueStage::Finished, queued).1 == (QueueStep::Finish {
            outcome: Err(FlowError::OutOfTurn),
        }),
        queued !is Thread && queued !is Failed ==> queue_next(QueueStage::Loading, queued).1 == (
        QueueStep::Finish { outcome: Err(FlowError::OutOfTurn) }),
        queue_next(QueueStage::Loading, QueueEvent::Failed(reason)).1 == (QueueStep::Finish {
            outcome: Err(FlowError::Outside(reason)),
        }),
        analysis_next(AnalysisStage::Finished, analysed).1 == (AnalysisStep::Finish {
            outcome: Err(FlowError::OutOfTurn),
        }),
        analysed !is Thread && analysed !is Failed ==> analysis_next(
            AnalysisStage::Loading { request },
            analysed,
        ).1 == (AnalysisStep::Finish { outcome: Err(FlowError::OutOfTurn) }),
        analysis_next(AnalysisStage::Loading { request }, AnalysisEvent::Failed(reason)).1 == (
        AnalysisStep::Finish { outcome: Err(FlowError::Outside(reason)) }),
        image_turn_next(ImageTurnStage::Finished, turn).1 == (ImageTurnStep::Finish {
            outcome: Err(FlowError::OutOfTurn),
        }),
        turn !is Ended && turn !is Failed ==> image_turn_next(
            ImageTurnStage::Running { target },
            turn,
        ).1 == (ImageTurnStep::Finish { outcome: Err(FlowError::OutOfTurn) }),
        image_turn_next(
            ImageTurnStage::OpeningWorkspace { target },
            ImageTurnEvent::Failed(reason),
        ).1 == (ImageTurnStep::Finish { outcome: Err(FlowError::Outside(reason)) }),
{
}

} // verus!
