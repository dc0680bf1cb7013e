//! The services of a workspace: its runtime, the binding of a thread to it, and the changes of a
//! thread.
use vstd::prelude::*;
use vstd::string::*;

use crate::execution_mode::{ExecutionMode, SessionExecutionSnapshot};
use crate::runtime_control;
use crate::runtime_control::RuntimeOwnershipMode;
use crate::text;

verus! {

broadcast use vstd::string::group_string_axioms;

/// Why a service came to nothing.
#[derive(Debug, Clone, PartialEq, Eq)]
pub enum ServiceError {
    /// A step outside failed, for the reason given.
    Outside(String),
    /// The runtime that another process owns could not be brought back.
    NotRecovered,
    /// There is nothing through which local clients reach the runtime.
    MissingIngress,
    /// Another active thread is bound to the workspace.
    Conflict,
    /// The thread is not active.
    NotActive,
    /// Something was reported that was not asked for.
    OutOfTurn,
}

impl ServiceError {
    /// The reason, in words.
    pub open spec fn message(self, workspace: Seq<char>) -> Seq<char> {
        match self {
            ServiceError::Outside(reason) => reason@,
            ServiceError::NotRecovered => "failed to recover owner-managed runtime state for "@
                + workspace,
            ServiceError::MissingIngress => {
                "self-managed control runtime is missing hcodex ingress manager"@
            },
            ServiceError::Conflict => {
                "Workspace bind failed: another active thread is already bound to `"@ + workspace
                    + "`."@
            },
            ServiceError::NotActive => "thread_key is not an active thread"@,
            ServiceError::OutOfTurn => "a step was reported that was not asked for"@,
        }
    }

    /// The reason, in words.
    pub fn to_text(&self, workspace: &str) -> (res: String)
        ensures
            res@ == self.message(workspace@),
    {
        match self {
            ServiceError::Outside(reason) => reason.clone(),
            ServiceError::NotRecovered => text::concat2(
                "failed to recover owner-managed runtime state for ",
                workspace,
            ),
            ServiceError::MissingIngress => {
                "self-managed control runtime is missing hcodex ingress manager".to_owned()
            },
            ServiceError::Conflict => text::concat3(
                "Workspace bind failed: another active thread is already bound to `",
                workspace,
                "`.",
            ),
            ServiceError::NotActive => "thread_key is not an active thread".to_owned(),
            ServiceError::OutOfTurn => "a step was reported that was not asked for".to_owned(),
        }
    }
}

/// The address of a runtime, if its URL is one of a web socket.
pub open spec fn socket_of(url: Seq<char>) -> Option<Seq<char>> {
    if "ws://"@.is_prefix_of(url) {
        Some(url.skip("ws://"@.len() as int))
    } else {
        None
    }
}

/// The address of a runtime, if its URL is one of a web socket.
pub fn socket_address(url: &str) -> (res: Option<&str>)
    ensures
        text::opt_str_view(res) == socket_of(url@),
{
    text::strip_prefix(url, "ws://")
}

/// Who is in need of a runtime.
#[derive(Debug, Clone, Copy, PartialEq, Eq, Structural)]
pub enum RuntimeUse {
    /// A thread that is bound to the workspace, which is set up before it is used.
    Bound,
    /// A turn, which shares the runtime with local clients.
    Shared,
    /// The control of the workspace, which local clients reach the runtime through.
    Control,
}

/// How far the providing of a runtime has come.
#[derive(Debug)]
pub enum RuntimeStage {
    SettingUp { ownership: RuntimeOwnershipMode },
    ReadingState,
    Connecting { url: String },
    Recovering,
    Starting { need: RuntimeUse, has_ingress: bool },
    OpeningIngress { url: String },
    Finished,
}

/// What came of a step.
#[derive(Debug)]
pub enum RuntimeEvent {
    Done,
    /// The runtime is at a URL.
    Running { url: String },
    Failed(String),
}

/// What is to be done next.
#[derive(Debug)]
pub enum RuntimeStep {
    /// Set up what the runtime needs in the workspace.
    SetUp,
    /// Read the state that the owner of the runtime has left.
    ReadState,
    /// See whether the runtime answers.
    Connect { url: String },
    /// Make sure that a runtime runs.
    EnsureRuntime,
    /// Make sure that local clients reach the runtime.
    EnsureIngress { url: String },
    Finish { outcome: Result<String, ServiceError> },
}

/// The end of the providing of a runtime.
pub open spec fn runtime_ended(outcome: Result<String, ServiceError>) -> (RuntimeStage, RuntimeStep) {
    (RuntimeStage::Finished, RuntimeStep::Finish { outcome })
}

fn end_runtime(outcome: Result<String, ServiceError>) -> (res: (RuntimeStage, RuntimeStep))
    ensures
        res == runtime_ended(outcome),
{
    (RuntimeStage::Finished, RuntimeStep::Finish { outcome })
}

/// How a runtime is got hold of: one that another process owns is looked for.
pub open spec fn runtime_sought(
    ownership: RuntimeOwnershipMode,
    need: RuntimeUse,
    has_ingress: bool,
) -> (RuntimeStage, RuntimeStep) {
    match ownership {
        RuntimeOwnershipMode::DesktopOwner => (RuntimeStage::ReadingState, RuntimeStep::ReadState),
        RuntimeOwnershipMode::SelfManaged => (
            RuntimeStage::Starting { need, has_ingress },
            RuntimeStep::EnsureRuntime,
        ),
    }
}

fn seek_runtime(ownership: RuntimeOwnershipMode, need: RuntimeUse, has_ingress: bool) -> (res: (
    RuntimeStage,
    RuntimeStep,
))
    ensures
        res == runtime_sought(ownership, need, has_ingress),
{
    match ownership {
        RuntimeOwnershipMode::DesktopOwner => (RuntimeStage::ReadingState, RuntimeStep::ReadState),
        RuntimeOwnershipMode::SelfManaged => (
            RuntimeStage::Starting { need, has_ingress },
            RuntimeStep::EnsureRuntime,
        ),
    }
}

/// The first step of the providing of a runtime: the workspace of a bound thread is set up first.
pub fn begin_runtime(ownership: RuntimeOwnershipMode, need: RuntimeUse, has_ingress: bool) -> (res: (
    RuntimeStage,
    RuntimeStep,
))
    ensures
        res == match need {
            RuntimeUse::Bound => (RuntimeStage::SettingUp { ownership }, RuntimeStep::SetUp),
            _ => runtime_sought(ownership, need, has_ingress),
        },
{
    match need {
        RuntimeUse::Bound => (RuntimeStage::SettingUp { ownership }, RuntimeStep::SetUp),
        _ => seek_runtime(ownership, need, has_ingress),
    }
}

/// What follows once the state of a runtime was read: it is believed only if it answers.
pub open spec fn runtime_read(url: String) -> (RuntimeStage, RuntimeStep) {
    if socket_of(url@) is Some {
        (RuntimeStage::Connecting { url }, RuntimeStep::Connect { url })
    } else {
        (RuntimeStage::Recovering, RuntimeStep::EnsureRuntime)
    }
}

fn on_runtime_read(url: String) -> (res: (RuntimeStage, RuntimeStep))
    ensures
        res == runtime_read(url),
{
    if socket_address(url.as_str()).is_some() {
        (RuntimeStage::Connecting { url: url.clone() }, RuntimeStep::Connect { url })
    } else {
        (RuntimeStage::Recovering, RuntimeStep::EnsureRuntime)
    }
}

/// What follows once a runtime of our own runs.
pub open spec fn runtime_started(need: RuntimeUse, has_ingress: bool, url: String) -> (
    RuntimeStage,
    RuntimeStep,
) {
    match need {
        RuntimeUse::Bound => runtime_ended(Ok(url)),
        RuntimeUse::Shared => runtime_ended(Ok(url)),
        RuntimeUse::Control => if has_ingress {
            (RuntimeStage::OpeningIngress { url }, RuntimeStep::EnsureIngress { url })
        } else {
            runtime_ended(Err(ServiceError::MissingIngress))
        },
    }
}

fn on_runtime_started(need: RuntimeUse, has_ingress: bool, url: String) -> (res: (
    RuntimeStage,
    RuntimeStep,
))
    ensures
        res == runtime_started(need, has_ingress, url),
{
    match need {
        RuntimeUse::Bound => end_runtime(Ok(url)),
        RuntimeUse::Shared => end_runtime(Ok(url)),
        RuntimeUse::Control => if has_ingress {
            (
                RuntimeStage::OpeningIngress { url: url.clone() },
                RuntimeStep::EnsureIngress { url },
            )
        } else {
            end_runtime(Err(ServiceError::MissingIngress))
        },
    }
}

/// What follows from an event.
pub open spec fn runtime_next(stage: RuntimeStage, event: RuntimeEvent) -> (RuntimeStage, RuntimeStep) {
    match (stage, event) {
        (RuntimeStage::Finished, _) => runtime_ended(Err(ServiceError::OutOfTurn)),
        (RuntimeStage::ReadingState, RuntimeEvent::Failed(_)) => (
            RuntimeStage::Recovering,
            RuntimeStep::EnsureRuntime,
        ),
        (RuntimeStage::Connecting { .. }, RuntimeEvent::Failed(_)) => (
            RuntimeStage::Recovering,
            RuntimeStep::EnsureRuntime,
        ),
        (RuntimeStage::Recovering, RuntimeEvent::Failed(_)) => runtime_ended(
            Err(ServiceError::NotRecovered),
        ),
        (_, RuntimeEvent::Failed(reason)) => runtime_ended(Err(ServiceError::Outside(reason))),
        (RuntimeStage::SettingUp { ownership }, RuntimeEvent::Done) => runtime_sought(
            ownership,
            RuntimeUse::Shared,
            false,
        ),
        (RuntimeStage::ReadingState, RuntimeEvent::Running { url }) => runtime_read(url),
        (RuntimeStage::Connecting { url }, RuntimeEvent::Done) => runtime_ended(Ok(url)),
        (RuntimeStage::Recovering, RuntimeEvent::Running { url }) => runtime_ended(Ok(url)),
        (RuntimeStage::Starting { need, has_ingress }, RuntimeEvent::Running { url }) => runtime_started(
            need,
            has_ingress,
            url,
        ),
        (RuntimeStage::OpeningIngress { url }, RuntimeEvent::Done) => runtime_ended(Ok(url)),
        _ => runtime_ended(Err(ServiceError::OutOfTurn)),
    }
}

/// The next step of the providing of a runtime.
pub fn advance_runtime(stage: RuntimeStage, event: RuntimeEvent) -> (res: (RuntimeStage, RuntimeStep))
    ensures
        res == runtime_next(stage, event),
{
    match (stage, event) {
        (RuntimeStage::Finished, _) => end_runtime(Err(ServiceError::OutOfTurn)),
        (RuntimeStage::ReadingState, RuntimeEvent::Failed(_)) => (
            RuntimeStage::Recovering,
            RuntimeStep::EnsureRuntime,
        ),
        (RuntimeStage::Connecting { .. }, RuntimeEvent::Failed(_)) => (
            RuntimeStage::Recovering,
            RuntimeStep::EnsureRuntime,
        ),
        (RuntimeStage::Recovering, RuntimeEvent::Failed(_)) => end_runtime(
            Err(ServiceError::NotRecovered),
        ),
        (_, RuntimeEvent::Failed(reason)) => end_runtime(Err(ServiceError::Outside(reason))),
        (RuntimeStage::SettingUp { ownership }, RuntimeEvent::Done) => seek_runtime(
            ownership,
            RuntimeUse::Shared,
            false,
        ),
        (RuntimeStage::ReadingState, RuntimeEvent::Running { url }) => on_runtime_read(url),
        (RuntimeStage::Connecting { url }, RuntimeEvent::Done) => end_runtime(Ok(url)),
        (RuntimeStage::Recovering, RuntimeEvent::Running { url }) => end_runtime(Ok(url)),
        (RuntimeStage::Starting { need, has_ingress }, RuntimeEvent::Running { url }) => on_runtime_started(
            need,
            has_ingress,
            url,
        ),
        (RuntimeStage::OpeningIngress { url }, RuntimeEvent::Done) => end_runtime(Ok(url)),
        _ => end_runtime(Err(ServiceError::OutOfTurn)),
    }
}

/// How many steps the providing of a runtime can still take.
pub open spec fn runtime_steps_left(stage: RuntimeStage) -> nat {
    match stage {
        RuntimeStage::SettingUp { .. } => 4,
        RuntimeStage::ReadingState => 3,
        RuntimeStage::Connecting { .. } => 2,
        RuntimeStage::Recovering => 1,
        RuntimeStage::Starting { .. } => 2,
        RuntimeStage::OpeningIngress { .. } => 1,
        RuntimeStage::Finished => 0,
    }
}

/// Whatever comes of its steps, the providing of a runtime ends.
pub proof fn law_runtime_ends(stage: RuntimeStage, event: RuntimeEvent)
    ensures
        runtime_next(stage, event).1 is Finish <==> runtime_next(stage, event).0 is Finished,
        stage !is Finished ==> runtime_steps_left(runtime_next(stage, event).0) < runtime_steps_left(stage),
        stage is Finished ==> runtime_next(stage, event).0 is Finished,
{
}

/// A runtime that another process owns is used only if it answers, and is brought back otherwise:
/// whatever is wrong with it, the next step is to make sure that one runs.
pub proof fn law_dead_runtimes_are_brought_back(url: String, reason: String)
    ensures
        runtime_next(RuntimeStage::ReadingState, RuntimeEvent::Failed(reason)).1 is EnsureRuntime,
        runtime_next(RuntimeStage::Connecting { url }, RuntimeEvent::Failed(reason)).1
            is EnsureRuntime,
        runtime_next(RuntimeStage::ReadingState, RuntimeEvent::Running { url }).1 == (
        RuntimeStep::Connect { url }) || runtime_next(
            RuntimeStage::ReadingState,
            RuntimeEvent::Running { url },
        ).1 is EnsureRuntime,
{
}

/// The workspace of a bound thread is set up before its runtime is got hold of, and where it
/// cannot be set up, no runtime is.
pub proof fn law_bound_workspaces_are_set_up_first(
    ownership: RuntimeOwnershipMode,
    reason: String,
)
    ensures
        runtime_next(RuntimeStage::SettingUp { ownership }, RuntimeEvent::Done) == runtime_sought(
            ownership,
            RuntimeUse::Shared,
            false,
        ),
        runtime_next(RuntimeStage::SettingUp { ownership }, RuntimeEvent::Failed(reason))
            == runtime_ended(Err(ServiceError::Outside(reason))),
{
}

/// A session that was started.
#[derive(Debug)]
pub struct StartedSession {
    pub cwd: String,
    pub thread_id: String,
    pub execution: SessionExecutionSnapshot,
}

/// How far the binding of a thread has come.
#[derive(Debug)]
pub enum BindStage {
    FindingThreads { thread_key: String },
    SettingUp,
    Preparing,
    ReadingMode,
    Starting,
    Binding,
    Finished,
}

/// What came of a step.
#[derive(Debug)]
pub enum BindEvent {
    Done,
    /// The active threads that are bound to the workspace.
    Threads(Vec<String>),
    Mode(ExecutionMode),
    Started(StartedSession),
    Failed(String),
}

/// What is to be done next.
#[derive(Debug)]
pub enum BindStep {
    /// Find the active threads that are bound to the workspace.
    FindThreads,
    /// Set up what the runtime needs in the workspace.
    SetUp,
    /// Provide a runtime for the control of the workspace.
    Prepare,
    ReadMode,
    /// Start a session in a mode.
    Start { mode: ExecutionMode },
    /// Bind the thread to the workspace and the session.
    Bind { session: StartedSession },
    Finish { outcome: Result<(), ServiceError> },
}

/// The first step of the binding of a thread to a workspace.
pub fn begin_bind(thread_key: String) -> (res: (BindStage, BindStep))
    ensures
        res == (BindStage::FindingThreads { thread_key }, BindStep::FindThreads),
{
    (BindStage::FindingThreads { thread_key }, BindStep::FindThreads)
}

/// The first step of a fresh session for a thread that is bound.
pub fn begin_fresh_session() -> (res: (BindStage, BindStep))
    ensures
        res == (BindStage::SettingUp, BindStep::SetUp),
{
    (BindStage::SettingUp, BindStep::SetUp)
}

/// Whether another thread is among those that are bound.
pub open spec fn is_bound_elsewhere(thread_key: Seq<char>, bound: Seq<String>) -> bool {
    exists|i: int| 0 <= i < bound.len() && (#[trigger] bound[i])@ != thread_key
}

/// What follows from the threads that are bound to the workspace.
pub open spec fn bind_found(thread_key: String, bound: Vec<String>) -> (BindStage, BindStep) {
    if is_bound_elsewhere(thread_key@, bound@) {
        bind_ended(Err(ServiceError::Conflict))
    } else {
        (BindStage::SettingUp, BindStep::SetUp)
    }
}

fn on_bind_threads(thread_key: String, bound: Vec<String>) -> (res: (BindStage, BindStep))
    ensures
        res == bind_found(thread_key, bound),
{
    if runtime_control::bind_conflict(thread_key.as_str(), &bound, "").is_some() {
        end_bind(Err(ServiceError::Conflict))
    } else {
        (BindStage::SettingUp, BindStep::SetUp)
    }
}

/// The end of the binding of a thread.
pub open spec fn bind_ended(outcome: Result<(), ServiceError>) -> (BindStage, BindStep) {
    (BindStage::Finished, BindStep::Finish { outcome })
}

fn end_bind(outcome: Result<(), ServiceError>) -> (res: (BindStage, BindStep))
    ensures
        res == bind_ended(outcome),
{
    (BindStage::Finished, BindStep::Finish { outcome })
}

/// What follows from an event.
pub open spec fn bind_next(stage: BindStage, event: BindEvent) -> (BindStage, BindStep) {
    match (stage, event) {
        (BindStage::Finished, _) => bind_ended(Err(ServiceError::OutOfTurn)),
        (_, BindEvent::Failed(reason)) => bind_ended(Err(ServiceError::Outside(reason))),
        (BindStage::FindingThreads { thread_key }, BindEvent::Threads(bound)) => bind_found(
            thread_key,
            bound,
        ),
        (BindStage::SettingUp, BindEvent::Done) => (BindStage::Preparing, BindStep::Prepare),
        (BindStage::Preparing, BindEvent::Done) => (BindStage::ReadingMode, BindStep::ReadMode),
        (BindStage::ReadingMode, BindEvent::Mode(mode)) => (
            BindStage::Starting,
            BindStep::Start { mode },
        ),
        (BindStage::Starting, BindEvent::Started(session)) => (
            BindStage::Binding,
            BindStep::Bind { session },
        ),
        (BindStage::Binding, BindEvent::Done) => bind_ended(Ok(())),
        _ => bind_ended(Err(ServiceError::OutOfTurn)),
    }
}

/// The next step of the binding of a thread.
pub fn advance_bind(stage: BindStage, event: BindEvent) -> (res: (BindStage, BindStep))
    ensures
        res == bind_next(stage, event),
{
    match (stage, event) {
        (BindStage::Finished, _) => end_bind(Err(ServiceError::OutOfTurn)),
        (_, BindEvent::Failed(reason)) => end_bind(Err(ServiceError::Outside(reason))),
        (BindStage::FindingThreads { thread_key }, BindEvent::Threads(bound)) => on_bind_threads(
            thread_key,
            bound,
        ),
        (BindStage::SettingUp, BindEvent::Done) => (BindStage::Preparing, BindStep::Prepare),
        (BindStage::Preparing, BindEvent::Done) => (BindStage::ReadingMode, BindStep::ReadMode),
        (BindStage::ReadingMode, BindEvent::Mode(mode)) => (
            BindStage::Starting,
            BindStep::Start { mode },
        ),
        (BindStage::Starting, BindEvent::Started(session)) => (
            BindStage::Binding,
            BindStep::Bind { session },
        ),
        (BindStage::Binding, BindEvent::Done) => end_bind(Ok(())),
        _ => end_bind(Err(ServiceError::OutOfTurn)),
    }
}

/// How many steps the binding of a thread can still take.
pub open spec fn bind_steps_left(stage: BindStage) -> nat {
    match stage {
        BindStage::FindingThreads { .. } => 6,
        BindStage::SettingUp => 5,
        BindStage::Preparing => 4,
        BindStage::ReadingMode => 3,
        BindStage::Starting => 2,
        BindStage::Binding => 1,
        BindStage::Finished => 0,
    }
}

/// Whatever comes of its steps, the binding of a thread ends.
pub proof fn law_bind_ends(stage: BindStage, event: BindEvent)
    ensures
        bind_next(stage, event).1 is Finish <==> bind_next(stage, event).0 is Finished,
        stage !is Finished ==> bind_steps_left(bind_next(stage, event).0) < bind_steps_left(stage),
        stage is Finished ==> bind_next(stage, event).0 is Finished,
{
}

/// A workspace has one active thread: a thread is not bound to a workspace that another active
/// thread is bound to.
pub proof fn law_workspaces_have_one_thread(thread_key: String, bound: Vec<String>)
    ensures
        bind_next(BindStage::FindingThreads { thread_key }, BindEvent::Threads(bound)).1
            is SetUp <==> !is_bound_elsewhere(thread_key@, bound@),
        is_bound_elsewhere(thread_key@, bound@) ==> bind_next(
            BindStage::FindingThreads { thread_key },
            BindEvent::Threads(bound),
        ) == bind_ended(Err(ServiceError::Conflict)),
{
}

/// A change of an active thread.
#[derive(Debug, Clone, Copy, PartialEq, Eq, Structural)]
pub enum ThreadChange {
    AdoptTui,
    RejectTui,
    Archive,
}

/// How far the change of a thread has come.
#[derive(Debug, Clone, Copy, PartialEq, Eq, Structural)]
pub enum ChangeStage {
    FindingThread { change: ThreadChange },
    Changing { change: ThreadChange },
    Logging,
    Finished,
}

/// What came of a step.
#[derive(Debug)]
pub enum ChangeEvent {
    Done,
    /// Whether the thread is active.
    Found { active: bool },
    Failed(String),
}

/// What is to be done next.
#[derive(Debug)]
pub enum ChangeStep {
    FindThread,
    Apply { change: ThreadChange },
    Log { change: ThreadChange },
    Finish { outcome: Result<(), ServiceError> },
}

/// The first step of the change of a thread.
pub fn begin_change(change: ThreadChange) -> (res: (ChangeStage, ChangeStep))
    ensures
        res == (ChangeStage::FindingThread { change }, ChangeStep::FindThread),
{
    (ChangeStage::FindingThread { change }, ChangeStep::FindThread)
}

/// What is put on record about a change.
pub fn change_log(change: ThreadChange) -> (res: runtime_control::ThreadLog)
    ensures
        res == match change {
            ThreadChange::AdoptTui => runtime_control::ThreadLog::AdoptedTui,
            ThreadChange::RejectTui => runtime_control::ThreadLog::RejectedTui,
            ThreadChange::Archive => runtime_control::ThreadLog::Archived,
        },
{
    match change {
        ThreadChange::AdoptTui => runtime_control::ThreadLog::AdoptedTui,
        ThreadChange::RejectTui => runtime_control::ThreadLog::RejectedTui,
        ThreadChange::Archive => runtime_control::ThreadLog::Archived,
    }
}

/// The end of the change of a thread.
pub open spec fn change_ended(outcome: Result<(), ServiceError>) -> (ChangeStage, ChangeStep) {
    (ChangeStage::Finished, ChangeStep::Finish { outcome })
}

fn end_change(outcome: Result<(), ServiceError>) -> (res: (ChangeStage, ChangeStep))
    ensures
        res == change_ended(outcome),
{
    (ChangeStage::Finished, ChangeStep::Finish { outcome })
}

/// What follows from an event.
pub open spec fn change_next(stage: ChangeStage, event: ChangeEvent) -> (ChangeStage, ChangeStep) {
    match (stage, event) {
        (ChangeStage::Finished, _) => change_ended(Err(ServiceError::OutOfTurn)),
        (_, ChangeEvent::Failed(reason)) => change_ended(Err(ServiceError::Outside(reason))),
        (ChangeStage::FindingThread { change }, ChangeEvent::Found { active }) => if active {
            (ChangeStage::Changing { change }, ChangeStep::Apply { change })
        } else {
            change_ended(Err(ServiceError::NotActive))
        },
        (ChangeStage::Changing { change }, ChangeEvent::Done) => (
            ChangeStage::Logging,
            ChangeStep::Log { change },
        ),
        (ChangeStage::Logging, ChangeEvent::Done) => change_ended(Ok(())),
        _ => change_ended(Err(ServiceError::OutOfTurn)),
    }
}

/// The next step of the change of a thread.
pub fn advance_change(stage: ChangeStage, event: ChangeEvent) -> (res: (ChangeStage, ChangeStep))
    ensures
        res == change_next(stage, event),
{
    match (stage, event) {
        (ChangeStage::Finished, _) => end_change(Err(ServiceError::OutOfTurn)),
        (_, ChangeEvent::Failed(reason)) => end_change(Err(ServiceError::Outside(reason))),
        (ChangeStage::FindingThread { change }, ChangeEvent::Found { active }) => if active {
            (ChangeStage::Changing { change }, ChangeStep::Apply { change })
        } else {
            end_change(Err(ServiceError::NotActive))
        },
        (ChangeStage::Changing { change }, ChangeEvent::Done) => (
            ChangeStage::Logging,
            ChangeStep::Log { change },
        ),
        (ChangeStage::Logging, ChangeEvent::Done) => end_change(Ok(())),
        _ => end_change(Err(ServiceError::OutOfTurn)),
    }
}

/// How many steps the change of a thread can still take.
pub open spec fn change_steps_left(stage: ChangeStage) -> nat {
    match stage {
        ChangeStage::FindingThread { .. } => 3,
        ChangeStage::Changing { .. } => 2,
        ChangeStage::Logging => 1,
        ChangeStage::Finished => 0,
    }
}

/// Whatever comes of its steps, the change of a thread ends.
pub proof fn law_change_ends(stage: ChangeStage, event: ChangeEvent)
    ensures
        change_next(stage, event).1 is Finish <==> change_next(stage, event).0 is Finished,
        stage !is Finished ==> change_steps_left(change_next(stage, event).0) < change_steps_left(stage),
        stage is Finished ==> change_next(stage, event).0 is Finished,
{
}

/// A runtime that another process owns is used where its state names a web socket that answers, and
/// the result is the URL that was read; where it does not answer, one is made to run, and the
/// result is the URL of that. Where none can be, the runtime is not recovered.
pub proof fn law_owned_runtimes_are_found_or_recovered(
    need: RuntimeUse,
    has_ingress: bool,
    url: String,
    other: String,
    reason: String,
)
    ensures
        ({
            let begun = runtime_sought(RuntimeOwnershipMode::DesktopOwner, need, has_ingress);
            let read = runtime_next(begun.0, RuntimeEvent::Running { url });
            let answered = runtime_next(read.0, RuntimeEvent::Done);
            let silent = runtime_next(read.0, RuntimeEvent::Failed(reason));
            let recovered = runtime_next(silent.0, RuntimeEvent::Running { url: other });
            let lost = runtime_next(silent.0, RuntimeEvent::Failed(reason));
            let is_socket = text::occurs_at(url@, "ws://"@, 0);
            &&& begun.1 is ReadState
            &&& is_socket ==> read.1 == (RuntimeStep::Connect { url })
            &&& !is_socket ==> read.1 is EnsureRuntime
            &&& is_socket ==> answered.1 == (RuntimeStep::Finish { outcome: Ok(url) })
            &&& is_socket ==> silent.1 is EnsureRuntime
            &&& is_socket ==> recovered.1 == (RuntimeStep::Finish { outcome: Ok(other) })
            &&& is_socket ==> lost.1 == (RuntimeStep::Finish {
                outcome: Err(ServiceError::NotRecovered),
            })
        }),
{
    let prefix = "ws://"@;
    if prefix.is_prefix_of(url@) {
        assert(url@.subrange(0, prefix.len() as int) =~= prefix);
    }
    if text::occurs_at(url@, prefix, 0) {
        assert(prefix =~= url@.subrange(0, prefix.len() as int));
        assert(prefix.is_prefix_of(url@));
    }
}

/// A runtime of our own is made to run, and the result is its URL. The control of a workspace also
/// needs an ingress: it is opened on that URL, and where there is none to open the control comes to
/// nothing.
pub proof fn law_own_runtimes_are_started(
    need: RuntimeUse,
    has_ingress: bool,
    url: String,
)
    ensures
        ({
            let begun = runtime_sought(RuntimeOwnershipMode::SelfManaged, need, has_ingress);
            let running = runtime_next(begun.0, RuntimeEvent::Running { url });
            let opened = runtime_next(running.0, RuntimeEvent::Done);
            &&& begun.1 is EnsureRuntime
            &&& need !is Control ==> running.1 == (RuntimeStep::Finish { outcome: Ok(url) })
            &&& need is Control && has_ingress ==> running.1 == (RuntimeStep::EnsureIngress { url })
                && opened.1 == (RuntimeStep::Finish { outcome: Ok(url) })
            &&& need is Control && !has_ingress ==> running.1 == (RuntimeStep::Finish {
                outcome: Err(ServiceError::MissingIngress),
            })
        }),
{
}

/// The address of a web socket is what follows the scheme of its URL; a URL of another scheme has
/// none.
pub proof fn law_addresses_follow_the_scheme(url: Seq<char>, address: Seq<char>)
    ensures
        socket_of("ws://"@ + address) == Some(address),
        socket_of(url) matches Some(rest) ==> url == "ws://"@ + rest,
        socket_of(url) is None <==> !text::occurs_at(url, "ws://"@, 0),
{
    let prefix = "ws://"@;
    assert(prefix.is_prefix_of(prefix + address));
    assert((prefix + address).skip(prefix.len() as int) =~= address);
    if prefix.is_prefix_of(url) {
        assert(url.subrange(0, prefix.len() as int) =~= prefix);
        assert(url =~= prefix + url.skip(prefix.len() as int));
    }
    if text::occurs_at(url, prefix, 0) {
        assert(prefix =~= url.subrange(0, prefix.len() as int));
        assert(prefix.is_prefix_of(url));
    }
}

/// A thread is bound step by step: the workspace is set up, its runtime prepared, its mode read and
/// a session started in that mode; what is bound is the session that was started.
pub proof fn law_threads_are_bound_to_the_started_session(
    mode: ExecutionMode,
    session: StartedSession,
    stage: BindStage,
    event: BindEvent,
)
    ensures
        ({
            let set_up = bind_next(BindStage::SettingUp, BindEvent::Done);
            let prepared = bind_next(set_up.0, BindEvent::Done);
            let read = bind_next(prepared.0, BindEvent::Mode(mode));
            let started = bind_next(read.0, BindEvent::Started(session));
            let bound = bind_next(started.0, BindEvent::Done);
            &&& set_up.1 is Prepare
            &&& prepared.1 is ReadMode
            &&& read.1 == (BindStep::Start { mode })
            &&& started.1 == (BindStep::Bind { session })
            &&& bound.1 == (BindStep::Finish { outcome: Ok(()) })
        }),
        bind_next(stage, event).1 matches BindStep::Bind { session } ==> event
            == BindEvent::Started(session) && stage is Starting,
        bind_next(stage, event).1 matches BindStep::Start { mode } ==> event == BindEvent::Mode(mode)
            && stage is ReadingMode,
        bind_next(stage, event).1 == (BindStep::Finish { outcome: Ok(()) }) ==> stage is Binding
            && event is Done,
{
}

/// A change is made to an active thread only, and it is the change that was asked for; it is put on
/// record once it is made.
pub proof fn law_only_active_threads_change(change: ThreadChange, reason: String)
    ensures
        ({
            let found = change_next(
                ChangeStage::FindingThread { change },
                ChangeEvent::Found { active: true },
            );
            let changed = change_next(found.0, ChangeEvent::Done);
            let logged = change_next(changed.0, ChangeEvent::Done);
            &&& found.1 == (ChangeStep::Apply { change })
            &&& changed.1 == (ChangeStep::Log { change })
            &&& logged.1 == (ChangeStep::Finish { outcome: Ok(()) })
            &&& change_next(found.0, ChangeEvent::Failed(reason)).1 == (ChangeStep::Finish {
                outcome: Err(ServiceError::Outside(reason)),
            })
        }),
        change_next(ChangeStage::FindingThread { change }, ChangeEvent::Found { active: false }).1
            == (ChangeStep::Finish { outcome: Err(ServiceError::NotActive) }),
{
}

/// Why a workspace could not be served names the workspace, where it is about one.
pub proof fn law_service_errors_say_what_is_wrong(workspace: Seq<char>, reason: String)
    ensures
        ServiceError::Outside(reason).message(workspace) == reason@,
        ServiceError::NotRecovered.message(workspace)
            == "failed to recover owner-managed runtime state for "@ + workspace,
        ServiceError::MissingIngress.message(workspace)
            == "self-managed control runtime is missing hcodex ingress manager"@,
        ServiceError::Conflict.message(workspace)
            == "Workspace bind failed: another active thread is already bound to `"@ + workspace
            + "`."@,
        ServiceError::NotActive.message(workspace) == "thread_key is not an active thread"@,
{
}

/// A thread is bound step by step: the workspace is set up and its runtime prepared before its mode is
/// read, and a session is started in that mode and bound. What fails ends the binding for its reason,
/// and nothing is taken that was not asked for.
pub proof fn law_bindings_are_made_in_order(
    thread_key: String,
    reason: String,
    bind: BindEvent,
    change: ChangeEvent,
    runtime: RuntimeEvent,
)
    ensures
        bind_next(BindStage::SettingUp, BindEvent::Done).1 is Prepare,
        bind_next(BindStage::Preparing, BindEvent::Done).1 is ReadMode,
        bind_next(BindStage::Binding, BindEvent::Done).1 == (BindStep::Finish { outcome: Ok(()) }),
        bind_next(BindStage::Preparing, BindEvent::Failed(reason)).1 == (BindStep::Finish {
            outcome: Err(ServiceError::Outside(reason)),
        }),
        bind_next(BindStage::Finished, bind).1 == (BindStep::Finish {
            outcome: Err(ServiceError::OutOfTurn),
        }),
        bind !is Done && bind !is Failed ==> bind_next(BindStage::SettingUp, bind).1 == (
        BindStep::Finish { outcome: Err(ServiceError::OutOfTurn) }),
        change_next(ChangeStage::Finished, change).1 == (ChangeStep::Finish {
            outcome: Err(ServiceError::OutOfTurn),
        }),
        change !is Done && change !is Failed ==> change_next(ChangeStage::Logging, change).1 == (
        ChangeStep::Finish { outcome: Err(ServiceError::OutOfTurn) }),
        change_next(ChangeStage::Logging, ChangeEvent::Failed(reason)).1 == (ChangeStep::Finish {
            outcome: Err(ServiceError::Outside(reason)),
        }),
        runtime_next(RuntimeStage::Finished, runtime).1 == (RuntimeStep::Finish {
            outcome: Err(ServiceError::OutOfTurn),
        }),
        runtime is Done ==> runtime_next(RuntimeStage::Recovering, runtime).1 == (
        RuntimeStep::Finish { outcome: Err(ServiceError::OutOfTurn) }),
{
}

} // verus!
