//! Restoring archived threads.
use vstd::prelude::*;
use vstd::string::*;

use crate::repository;
use crate::repository::SessionBinding;
use crate::runtime_control;
use crate::telegram_runtime;
use crate::telegram_runtime::callbacks;
use crate::telegram_runtime::callbacks::{Button, ButtonModel, Keyboard};
use crate::telegram_runtime::TurnTarget;
use crate::text;

verus! {

broadcast use vstd::string::group_string_axioms;

pub const RESTORE_PAGE_SIZE: usize = 8;

/// An archived thread, as far as it is shown.
#[derive(Debug)]
pub struct ArchivedThread {
    pub thread_key: String,
    pub title: Option<String>,
    pub message_thread_id: Option<i32>,
}

/// The number of the topic of a thread, in words.
pub open spec fn numbered(message_thread_id: Option<i32>) -> Seq<char> {
    "Thread "@ + text::signed_decimal(
        match message_thread_id {
            Some(id) => id as int,
            None => 0,
        },
    )
}

/// The number of the topic of a thread, in words.
fn number_text(message_thread_id: Option<i32>) -> (res: String)
    ensures
        res@ == numbered(message_thread_id),
{
    let id: i64 = match message_thread_id {
        Some(id) => id as i64,
        None => 0,
    };
    let digits = text::signed_decimal_text(id);
    text::concat2("Thread ", digits.as_str())
}

/// The title of a thread that was restored.
pub open spec fn restored_title(title: Option<Seq<char>>, message_thread_id: Option<i32>) -> Seq<char> {
    text::or_text(text::filled(title), numbered(message_thread_id)) + " · 已恢復"@
}

/// The title of a thread that was restored.
pub fn restored_thread_title(title: Option<&str>, fallback_thread_id: Option<i32>) -> (res: String)
    ensures
        res@ == restored_title(text::opt_str_view(title), fallback_thread_id),
{
    match text::trim_filled(title) {
        Some(title) => text::concat2(title, " · 已恢復"),
        None => {
            let number = number_text(fallback_thread_id);
            text::concat2(number.as_str(), " · 已恢復")
        },
    }
}

impl ArchivedThread {
    /// How the thread is called in the list.
    pub open spec fn label(self) -> Seq<char> {
        match self.title {
            Some(title) => title@,
            None => numbered(self.message_thread_id),
        }
    }

    /// The line of the thread in the list.
    pub open spec fn line(self) -> Seq<char> {
        "- "@ + self.label() + " ["@ + self.thread_key@ + "]"@
    }

    /// The button that restores the thread.
    pub open spec fn button(self, offset: nat) -> ButtonModel {
        ButtonModel {
            label: "Restore: "@ + self.label(),
            data: callbacks::button_data(
                seq![callbacks::CALLBACK_RESTORE_PICK@, self.thread_key@, text::decimal(offset)],
            ),
        }
    }
}

/// The threads on a page.
pub open spec fn page_of(archived: Seq<ArchivedThread>, offset: int) -> Seq<ArchivedThread> {
    let rest = if offset < archived.len() {
        archived.skip(offset)
    } else {
        Seq::empty()
    };
    if rest.len() > RESTORE_PAGE_SIZE {
        rest.take(RESTORE_PAGE_SIZE as int)
    } else {
        rest
    }
}

/// A button that turns to another page.
pub open spec fn page_button(label: Seq<char>, offset: nat) -> ButtonModel {
    ButtonModel {
        label,
        data: callbacks::button_data(
            seq![callbacks::CALLBACK_RESTORE_PAGE@, text::decimal(offset)],
        ),
    }
}

/// The buttons that turn to the page before and to the page behind, where there are such.
pub open spec fn page_turns(count: int, offset: int) -> Seq<ButtonModel> {
    let before = if offset > RESTORE_PAGE_SIZE {
        (offset - RESTORE_PAGE_SIZE) as nat
    } else {
        0
    };
    let back = if offset > 0 {
        seq![page_button("Previous"@, before)]
    } else {
        Seq::empty()
    };
    if offset + RESTORE_PAGE_SIZE < count {
        back.push(page_button("Next"@, (offset + RESTORE_PAGE_SIZE) as nat))
    } else {
        back
    }
}

/// The text of a page.
pub open spec fn page_text(archived: Seq<ArchivedThread>, offset: int) -> Seq<char> {
    if archived.len() == 0 {
        "No archived threads are available."@
    } else {
        "Archived threads:\n"@ + text::joined(
            page_of(archived, offset).map_values(|thread: ArchivedThread| thread.line()),
            "\n"@,
        ) + "\n\nChoose one to restore."@
    }
}

/// The buttons of a page.
pub open spec fn page_rows(archived: Seq<ArchivedThread>, offset: int) -> Seq<Seq<ButtonModel>> {
    let rows = page_of(archived, offset).map_values(
        |thread: ArchivedThread| seq![thread.button(offset as nat)],
    );
    if archived.len() == 0 {
        Seq::empty()
    } else if page_turns(archived.len() as int, offset).len() > 0 {
        rows.push(page_turns(archived.len() as int, offset))
    } else {
        rows
    }
}

/// The buttons that turn to other pages.
fn turn_buttons(count: usize, offset: usize) -> (res: Vec<Button>)
    ensures
        callbacks::row_model(res@) == page_turns(count as int, offset as int),
{
    let mut row: Vec<Button> = Vec::new();
    if offset > 0 {
        let before: usize = if offset > RESTORE_PAGE_SIZE {
            offset - RESTORE_PAGE_SIZE
        } else {
            0
        };
        let digits = text::decimal_text(before as u64);
        row.push(
            Button {
                label: "Previous".to_owned(),
                data: callbacks::data_of_two(callbacks::CALLBACK_RESTORE_PAGE, digits.as_str()),
            },
        );
    }
    if count > RESTORE_PAGE_SIZE && offset < count - RESTORE_PAGE_SIZE {
        let digits = text::decimal_text((offset + RESTORE_PAGE_SIZE) as u64);
        row.push(
            Button {
                label: "Next".to_owned(),
                data: callbacks::data_of_two(callbacks::CALLBACK_RESTORE_PAGE, digits.as_str()),
            },
        );
    }
    proof {
        assert(callbacks::row_model(row@) =~= page_turns(count as int, offset as int));
    }
    row
}

/// A page of archived threads: its text and its buttons.
pub fn render_restore_page(archived: &Vec<ArchivedThread>, offset: usize) -> (res: (String, Keyboard))
    ensures
        res.0@ == page_text(archived@, offset as int),
        res.1@ == page_rows(archived@, offset as int),
{
    if archived.len() == 0 {
        return ("No archived threads are available.".to_owned(), Keyboard::new());
    }
    let ghost page = page_of(archived@, offset as int);
    let ghost all_lines = page.map_values(|thread: ArchivedThread| thread.line());
    let ghost all_rows = page.map_values(
        |thread: ArchivedThread| seq![thread.button(offset as nat)],
    );
    let digits = text::decimal_text(offset as u64);
    let mut lines: Vec<String> = Vec::new();
    let mut keyboard = Keyboard::new();
    let mut i: usize = 0;
    let on_page: usize = if offset >= archived.len() {
        0
    } else if archived.len() - offset > RESTORE_PAGE_SIZE {
        RESTORE_PAGE_SIZE
    } else {
        archived.len() - offset
    };
    proof {
        assert(page.len() == on_page);
        assert(text::views(lines@) =~= all_lines.take(0));
        assert(keyboard@ =~= all_rows.take(0));
    }
    while i < on_page
        invariant
            i <= on_page,
            on_page == page.len(),
            on_page > 0 ==> offset + on_page <= archived.len(),
            page == page_of(archived@, offset as int),
            digits@ == text::decimal(offset as nat),
            all_lines == page.map_values(|thread: ArchivedThread| thread.line()),
            all_rows == page.map_values(
                |thread: ArchivedThread| seq![thread.button(offset as nat)],
            ),
            text::views(lines@) =~= all_lines.take(i as int),
            keyboard@ =~= all_rows.take(i as int),
        decreases on_page - i,
    {
        let thread = &archived[offset + i];
        proof {
            assert(page[i as int] == archived@[offset + i]);
        }
        let label = match &thread.title {
            Some(title) => title.clone(),
            None => number_text(thread.message_thread_id),
        };
        let line = text::concat5("- ", label.as_str(), " [", thread.thread_key.as_str(), "]");
        let button_label = text::concat2("Restore: ", label.as_str());
        let data = callbacks::data_of_three(
            callbacks::CALLBACK_RESTORE_PICK,
            thread.thread_key.as_str(),
            digits.as_str(),
        );
        proof {
            assert(all_lines[i as int] == line@);
            assert(all_rows[i as int] =~= seq![
                ButtonModel { label: button_label@, data: data@ },
            ]);
        }
        text::push_line(&mut lines, line);
        keyboard.push_button(button_label, data);
        i += 1;
    }
    proof {
        assert(all_lines.take(on_page as int) =~= all_lines);
        assert(all_rows.take(on_page as int) =~= all_rows);
    }
    let turns = turn_buttons(archived.len(), offset);
    if turns.len() > 0 {
        keyboard.push_row(turns);
    }
    let list = text::join(&lines, "\n");
    (
        text::concat3("Archived threads:\n", list.as_str(), "\n\nChoose one to restore."),
        keyboard,
    )
}

/// An archived thread is on the page that its place in the list falls on, when pages are turned
/// from the first one.
pub proof fn law_every_thread_is_on_a_page(archived: Seq<ArchivedThread>, i: int)
    requires
        0 <= i < archived.len(),
    ensures
        page_of(archived, i - i % (RESTORE_PAGE_SIZE as int)).contains(archived[i]),
        i >= RESTORE_PAGE_SIZE ==> page_turns(
            archived.len() as int,
            i - i % (RESTORE_PAGE_SIZE as int) - RESTORE_PAGE_SIZE,
        ).last() == page_button("Next"@, (i - i % (RESTORE_PAGE_SIZE as int)) as nat),
{
    let offset = i - i % (RESTORE_PAGE_SIZE as int);
    let page = page_of(archived, offset);
    assert(page[i - offset] == archived[i]);
}

/// What is known of a thread that is to be restored.
#[derive(Debug)]
pub struct RestorableThread {
    pub is_archived: bool,
    pub title: Option<String>,
    pub message_thread_id: Option<i32>,
    pub session: Option<SessionBinding>,
}

/// What the user is told who asked for a thread that is not restored.
#[derive(Debug)]
pub enum RestoreAlert {
    Missing,
    AlreadyActive,
    Unusable { session: Option<SessionBinding> },
    NotResumed,
}

impl RestoreAlert {
    /// What the user is told.
    pub fn to_text(&self) -> (res: &'static str)
        ensures
            res@ == match *self {
                RestoreAlert::Missing => "That archived thread binding no longer exists."@,
                RestoreAlert::AlreadyActive => "That thread binding is already active."@,
                RestoreAlert::Unusable { session } => telegram_runtime::binding_hint(
                    repository::opt_binding(session),
                ),
                RestoreAlert::NotResumed => {
                    "Restore failed because the bound Codex session could not be resumed. Use /bind_session <session_id>."@
                },
            },
    {
        match self {
            RestoreAlert::Missing => "That archived thread binding no longer exists.",
            RestoreAlert::AlreadyActive => "That thread binding is already active.",
            RestoreAlert::Unusable { session } => telegram_runtime::session_binding_hint(
                match session {
                    Some(session) => Some(session),
                    None => None,
                },
            ),
            RestoreAlert::NotResumed => {
                "Restore failed because the bound Codex session could not be resumed. Use /bind_session <session_id>."
            },
        }
    }

    /// Whether the user must close what they are told.
    pub fn is_insistent(&self) -> (res: bool)
        ensures
            res == (*self is Unusable || *self is NotResumed),
    {
        match self {
            RestoreAlert::Missing => false,
            RestoreAlert::AlreadyActive => false,
            RestoreAlert::Unusable { .. } => true,
            RestoreAlert::NotResumed => true,
        }
    }
}

/// Why a thread was not restored.
#[derive(Debug, Clone, PartialEq, Eq)]
pub enum RestoreError {
    /// A step outside failed, for the reason given.
    Outside(String),
    /// The binding of the thread names no workspace.
    MissingWorkspace,
    /// A step was reported that was not asked for.
    OutOfTurn,
}

impl RestoreError {
    /// The reason, in words.
    pub fn to_text(&self) -> (res: String)
        ensures
            res@ == match *self {
                RestoreError::Outside(reason) => reason@,
                RestoreError::MissingWorkspace => "session binding is missing workspace_cwd"@,
                RestoreError::OutOfTurn => "a step was reported that was not asked for"@,
            },
    {
        match self {
            RestoreError::Outside(reason) => reason.clone(),
            RestoreError::MissingWorkspace => "session binding is missing workspace_cwd".to_owned(),
            RestoreError::OutOfTurn => "a step was reported that was not asked for".to_owned(),
        }
    }
}

/// What is put on record about a restored thread.
pub fn restored_log(topic: &str, thread_id: i32) -> (res: String)
    ensures
        res@ == "Thread restored from archive into Telegram thread \""@ + topic@
            + "\" (message_thread_id "@ + text::signed_decimal(thread_id as int) + ")."@,
{
    let id = text::signed_decimal_text(thread_id as i64);
    text::concat5(
        "Thread restored from archive into Telegram thread \"",
        topic,
        "\" (message_thread_id ",
        id.as_str(),
        ").",
    )
}

/// How the press of the button is answered by which a thread was restored.
pub fn restored_answer() -> (res: &'static str)
    ensures
        res@ == "Thread restored."@,
{
    "Thread restored."
}

/// What the control chat is told of a restored thread.
pub fn restored_notice(topic: &str) -> (res: String)
    ensures
        res@ == "Restored into \""@ + topic@ + "\". Continue there."@,
{
    text::concat3("Restored into \"", topic, "\". Continue there.")
}

/// The first message in a restored thread.
pub open spec fn recap_text(recap: Seq<char>) -> Seq<char> {
    "This thread has been restored from archive.\n\nHere is a recap of our work so far:\n"@
        + if text::is_blank(recap) {
        "This thread was restored from archive, but Codex did not return a recap."@
    } else {
        text::trimmed(recap)
    }
}

/// The first message in a restored thread.
pub fn recap_message(recap: &str) -> (res: String)
    ensures
        res@ == recap_text(recap@),
{
    let told = text::trim(recap);
    if told.is_empty() {
        text::concat2(
            "This thread has been restored from archive.\n\nHere is a recap of our work so far:\n",
            "This thread was restored from archive, but Codex did not return a recap.",
        )
    } else {
        text::concat2(
            "This thread has been restored from archive.\n\nHere is a recap of our work so far:\n",
            told,
        )
    }
}

/// How far the restoring of a thread has come.
#[derive(Debug)]
pub enum RestoreStage {
    FindThread,
    PrepareRuntime {
        title: Option<String>,
        message_thread_id: Option<i32>,
        target: TurnTarget,
    },
    Recap { title: Option<String>, message_thread_id: Option<i32>, workspace: String },
    MarkBroken,
    MarkVerified {
        title: Option<String>,
        message_thread_id: Option<i32>,
        workspace: String,
        recap: String,
    },
    CreateTopic { workspace: String, recap: String },
    Restore { workspace: String, recap: String, topic: String, thread_id: i32 },
    EnsureRuntime { recap: String, topic: String, thread_id: i32 },
    Log { recap: String, topic: String },
    Answer { recap: String, topic: String },
    Announce { recap: String },
    SendRecap,
    Last,
    Finished,
}

/// What came of a step.
#[derive(Debug)]
pub enum RestoreEvent {
    /// The thread that was looked for, where there is one.
    Thread(Option<RestorableThread>),
    /// The step was done.
    Done,
    /// The session told what it had done so far.
    Recap(String),
    /// The session could not be resumed, for the reason given.
    Refused(String),
    /// The topic that was made.
    Topic { thread_id: i32, name: String },
    /// The step failed, for the reason given.
    Failed(String),
}

/// What is to be done next.
#[derive(Debug)]
pub enum RestoreStep {
    FindThread,
    /// Answer the press of the button, with nothing done.
    Alert { alert: RestoreAlert },
    /// Make sure that the runtime of the workspace runs.
    PrepareRuntime { workspace: String },
    /// Have the session tell what it has done so far.
    Recap { target: TurnTarget },
    MarkBroken { reason: String },
    MarkVerified,
    /// Make a topic, under the title of a restored thread.
    CreateTopic { title: Option<String>, message_thread_id: Option<i32> },
    Restore { thread_id: i32, name: String },
    Log { topic: String, thread_id: i32 },
    /// Answer the press of the button, with the words of `restored_answer`.
    Answer,
    Announce { topic: String },
    SendRecap { recap: String },
    /// Show the page of archived threads anew.
    ShowPage,
    Finish { outcome: Result<(), RestoreError> },
}

/// The end of the restoring of a thread.
pub open spec fn restore_ended(outcome: Result<(), RestoreError>) -> (RestoreStage, RestoreStep) {
    (RestoreStage::Finished, RestoreStep::Finish { outcome })
}

/// An answer with which the restoring of a thread ends.
pub open spec fn restore_alerted(alert: RestoreAlert) -> (RestoreStage, RestoreStep) {
    (RestoreStage::Last, RestoreStep::Alert { alert })
}

/// What follows from the thread that was found.
pub open spec fn restore_found(found: Option<RestorableThread>) -> (RestoreStage, RestoreStep) {
    match found {
        None => restore_alerted(RestoreAlert::Missing),
        Some(thread) => if !thread.is_archived {
            restore_alerted(RestoreAlert::AlreadyActive)
        } else if runtime_control::bound_session(repository::opt_binding(thread.session)) is None {
            restore_alerted(RestoreAlert::Unusable { session: thread.session })
        } else {
            match telegram_runtime::binding_target(thread.session->0) {
                Some(target) => (
                    RestoreStage::PrepareRuntime {
                        title: thread.title,
                        message_thread_id: thread.message_thread_id,
                        target,
                    },
                    RestoreStep::PrepareRuntime { workspace: target.workspace },
                ),
                None => restore_ended(Err(RestoreError::MissingWorkspace)),
            }
        },
    }
}

/// What follows from an event.
pub open spec fn restore_next(stage: RestoreStage, event: RestoreEvent) -> (
    RestoreStage,
    RestoreStep,
) {
    match (stage, event) {
        (RestoreStage::Finished, _) => restore_ended(Err(RestoreError::OutOfTurn)),
        (_, RestoreEvent::Failed(reason)) => restore_ended(Err(RestoreError::Outside(reason))),
        (RestoreStage::FindThread, RestoreEvent::Thread(found)) => restore_found(found),
        (
            RestoreStage::PrepareRuntime { title, message_thread_id, target },
            RestoreEvent::Done,
        ) => (
            RestoreStage::Recap { title, message_thread_id, workspace: target.workspace },
            RestoreStep::Recap { target },
        ),
        (RestoreStage::Recap { .. }, RestoreEvent::Refused(reason)) => (
            RestoreStage::MarkBroken,
            RestoreStep::MarkBroken { reason },
        ),
        (RestoreStage::MarkBroken, RestoreEvent::Done) => (
            RestoreStage::Last,
            RestoreStep::Alert { alert: RestoreAlert::NotResumed },
        ),
        (
            RestoreStage::Recap { title, message_thread_id, workspace },
            RestoreEvent::Recap(recap),
        ) => (
            RestoreStage::MarkVerified { title, message_thread_id, workspace, recap },
            RestoreStep::MarkVerified,
        ),
        (
            RestoreStage::MarkVerified { title, message_thread_id, workspace, recap },
            RestoreEvent::Done,
        ) => (
            RestoreStage::CreateTopic { workspace, recap },
            RestoreStep::CreateTopic { title, message_thread_id },
        ),
        (
            RestoreStage::CreateTopic { workspace, recap },
            RestoreEvent::Topic { thread_id, name },
        ) => (
            RestoreStage::Restore { workspace, recap, topic: name, thread_id },
            RestoreStep::Restore { thread_id, name },
        ),
        (RestoreStage::Restore { workspace, recap, topic, thread_id }, RestoreEvent::Done) => (
            RestoreStage::EnsureRuntime { recap, topic, thread_id },
            RestoreStep::PrepareRuntime { workspace },
        ),
        (RestoreStage::EnsureRuntime { recap, topic, thread_id }, RestoreEvent::Done) => (
            RestoreStage::Log { recap, topic: topic },
            RestoreStep::Log { topic, thread_id },
        ),
        (RestoreStage::Log { recap, topic }, RestoreEvent::Done) => (
            RestoreStage::Answer { recap, topic },
            RestoreStep::Answer,
        ),
        (RestoreStage::Answer { recap, topic }, RestoreEvent::Done) => (
            RestoreStage::Announce { recap },
            RestoreStep::Announce { topic },
        ),
        (RestoreStage::Announce { recap }, RestoreEvent::Done) => (
            RestoreStage::SendRecap,
            RestoreStep::SendRecap { recap },
        ),
        (RestoreStage::SendRecap, RestoreEvent::Done) => (
            RestoreStage::Last,
            RestoreStep::ShowPage,
        ),
        (RestoreStage::Last, RestoreEvent::Done) => restore_ended(Ok(())),
        _ => restore_ended(Err(RestoreError::OutOfTurn)),
    }
}

fn end_restore(outcome: Result<(), RestoreError>) -> (res: (RestoreStage, RestoreStep))
    ensures
        res == restore_ended(outcome),
{
    (RestoreStage::Finished, RestoreStep::Finish { outcome })
}

fn alert_restore(alert: RestoreAlert) -> (res: (RestoreStage, RestoreStep))
    ensures
        res == restore_alerted(alert),
{
    (RestoreStage::Last, RestoreStep::Alert { alert })
}

fn on_found(found: Option<RestorableThread>) -> (res: (RestoreStage, RestoreStep))
    ensures
        res == restore_found(found),
{
    match found {
        None => alert_restore(RestoreAlert::Missing),
        Some(thread) => {
            if !thread.is_archived {
                return alert_restore(RestoreAlert::AlreadyActive);
            }
            match thread.session {
                None => alert_restore(RestoreAlert::Unusable { session: None }),
                Some(session) => {
                    if runtime_control::current_bound_session_id(Some(&session)).is_none() {
                        return alert_restore(RestoreAlert::Unusable { session: Some(session) });
                    }
                    match telegram_runtime::target_of_binding(&session) {
                        Some(target) => {
                            let workspace = target.workspace.clone();
                            (
                                RestoreStage::PrepareRuntime {
                                    title: thread.title,
                                    message_thread_id: thread.message_thread_id,
                                    target,
                                },
                                RestoreStep::PrepareRuntime { workspace },
                            )
                        },
                        None => end_restore(Err(RestoreError::MissingWorkspace)),
                    }
                },
            }
        },
    }
}

/// The first step of the restoring of a thread.
pub fn begin_restore() -> (res: (RestoreStage, RestoreStep))
    ensures
        res == (RestoreStage::FindThread, RestoreStep::FindThread),
{
    (RestoreStage::FindThread, RestoreStep::FindThread)
}

/// The next step of the restoring of a thread.
pub fn advance_restore(stage: RestoreStage, event: RestoreEvent) -> (res: (
    RestoreStage,
    RestoreStep,
))
    ensures
        res == restore_next(stage, event),
{
    match (stage, event) {
        (RestoreStage::Finished, _) => end_restore(Err(RestoreError::OutOfTurn)),
        (_, RestoreEvent::Failed(reason)) => end_restore(Err(RestoreError::Outside(reason))),
        (RestoreStage::FindThread, RestoreEvent::Thread(found)) => on_found(found),
        (
            RestoreStage::PrepareRuntime { title, message_thread_id, target },
            RestoreEvent::Done,
        ) => (
            RestoreStage::Recap { title, message_thread_id, workspace: target.workspace.clone() },
            RestoreStep::Recap { target },
        ),
        (RestoreStage::Recap { .. }, RestoreEvent::Refused(reason)) => (
            RestoreStage::MarkBroken,
            RestoreStep::MarkBroken { reason },
        ),
        (RestoreStage::MarkBroken, RestoreEvent::Done) => (
            RestoreStage::Last,
            RestoreStep::Alert { alert: RestoreAlert::NotResumed },
        ),
        (
            RestoreStage::Recap { title, message_thread_id, workspace },
            RestoreEvent::Recap(recap),
        ) => (
            RestoreStage::MarkVerified { title, message_thread_id, workspace, recap },
            RestoreStep::MarkVerified,
        ),
        (
            RestoreStage::MarkVerified { title, message_thread_id, workspace, recap },
            RestoreEvent::Done,
        ) => (
            RestoreStage::CreateTopic { workspace, recap },
            RestoreStep::CreateTopic { title, message_thread_id },
        ),
        (
            RestoreStage::CreateTopic { workspace, recap },
            RestoreEvent::Topic { thread_id, name },
        ) => (
            RestoreStage::Restore { workspace, recap, topic: name.clone(), thread_id },
            RestoreStep::Restore { thread_id, name },
        ),
        (RestoreStage::Restore { workspace, recap, topic, thread_id }, RestoreEvent::Done) => (
            RestoreStage::EnsureRuntime { recap, topic, thread_id },
            RestoreStep::PrepareRuntime { workspace },
        ),
        (RestoreStage::EnsureRuntime { recap, topic, thread_id }, RestoreEvent::Done) => (
            RestoreStage::Log { recap, topic: topic.clone() },
            RestoreStep::Log { topic, thread_id },
        ),
        (RestoreStage::Log { recap, topic }, RestoreEvent::Done) => (
            RestoreStage::Answer { recap, topic },
            RestoreStep::Answer,
        ),
        (RestoreStage::Answer { recap, topic }, RestoreEvent::Done) => (
            RestoreStage::Announce { recap },
            RestoreStep::Announce { topic },
        ),
        (RestoreStage::Announce { recap }, RestoreEvent::Done) => (
            RestoreStage::SendRecap,
            RestoreStep::SendRecap { recap },
        ),
        (RestoreStage::SendRecap, RestoreEvent::Done) => (
            RestoreStage::Last,
            RestoreStep::ShowPage,
        ),
        (RestoreStage::Last, RestoreEvent::Done) => end_restore(Ok(())),
        _ => end_restore(Err(RestoreError::OutOfTurn)),
    }
}

/// How many steps the restoring of a thread can still take.
pub open spec fn restore_steps_left(stage: RestoreStage) -> nat {
    match stage {
        RestoreStage::FindThread => 13,
        RestoreStage::PrepareRuntime { .. } => 12,
        RestoreStage::Recap { .. } => 11,
        RestoreStage::MarkBroken => 2,
        RestoreStage::MarkVerified { .. } => 10,
        RestoreStage::CreateTopic { .. } => 9,
        RestoreStage::Restore { .. } => 8,
        RestoreStage::EnsureRuntime { .. } => 7,
        RestoreStage::Log { .. } => 6,
        RestoreStage::Answer { .. } => 5,
        RestoreStage::Announce { .. } => 4,
        RestoreStage::SendRecap => 3,
        RestoreStage::Last => 1,
        RestoreStage::Finished => 0,
    }
}

/// Whatever comes of its steps, the restoring of a thread ends.
pub proof fn law_restore_ends(stage: RestoreStage, event: RestoreEvent)
    ensures
        restore_next(stage, event).1 is Finish <==> restore_next(stage, event).0 is Finished,
        stage !is Finished ==> restore_steps_left(restore_next(stage, event).0)
            < restore_steps_left(stage),
        stage is Finished ==> restore_next(stage, event).0 is Finished,
{
}

/// A topic is made only behind a recap that the session gave, and a session is asked for one only
/// if the thread is archived and bound to it.
pub proof fn law_only_resumed_threads_are_restored(stage: RestoreStage, event: RestoreEvent)
    ensures
        restore_next(stage, event).1 is CreateTopic ==> stage is MarkVerified,
        restore_next(stage, event).0 is MarkVerified ==> stage is Recap && event is Recap,
        restore_next(stage, event).0 is PrepareRuntime ==> stage is FindThread && event is Thread && (
        event->Thread_0) is Some && event->Thread_0->0.is_archived && runtime_control::bound_session(
            repository::opt_binding(event->Thread_0->0.session),
        ) is Some,
{
}

/// The session that is asked for a recap is that of the binding of the thread, in its workspace.
pub proof fn law_the_bound_session_gives_the_recap(
    thread: RestorableThread,
    stage: RestoreStage,
    event: RestoreEvent,
)
    ensures
        restore_next(RestoreStage::FindThread, RestoreEvent::Thread(Some(thread))).0
            matches RestoreStage::PrepareRuntime { target, .. } ==> runtime_control::bound_session(
            repository::opt_binding(thread.session),
        ) == Some(target.session_id@) && thread.session->0.workspace_cwd == Some(target.workspace),
        restore_next(stage, event).1 matches RestoreStep::Recap { target: asked } ==> (
        stage matches RestoreStage::PrepareRuntime { target, .. } && asked == target),
{
}

/// A page shows at most eight archived threads, from its offset on and in their order.
pub proof fn law_pages_show_threads_in_order(archived: Seq<ArchivedThread>, offset: int, k: int)
    requires
        0 <= offset,
    ensures
        page_of(archived, offset).len() <= 8,
        page_of(archived, offset).len() < 8 && offset <= archived.len() ==> offset + page_of(
            archived,
            offset,
        ).len() == archived.len(),
        offset >= archived.len() ==> page_of(archived, offset).len() == 0,
        0 <= k < page_of(archived, offset).len() ==> offset + k < archived.len() && page_of(
            archived,
            offset,
        )[k] == archived[offset + k],
{
}

/// Each thread on a page has a line with its name and its key, and a button of its own that restores
/// it and comes back to the page.
pub proof fn law_threads_on_a_page_can_be_restored(
    archived: Seq<ArchivedThread>,
    offset: int,
    k: int,
)
    requires
        0 <= offset,
        0 <= k < page_of(archived, offset).len(),
    ensures
        ({
            let thread = archived[offset + k];
            let button = page_rows(archived, offset)[k][0];
            &&& page_rows(archived, offset)[k].len() == 1
            &&& button.data == callbacks::button_data(
                seq![
                    callbacks::CALLBACK_RESTORE_PICK@,
                    thread.thread_key@,
                    text::decimal(offset as nat),
                ],
            )
            &&& text::occurs_at(button.label, thread.label(), 9)
            &&& thread.title matches Some(title) ==> thread.label() == title@
            &&& text::occurs_at(thread.line(), thread.label(), 2)
            &&& text::occurs_at(
                thread.line(),
                thread.thread_key@,
                thread.line().len() - thread.thread_key@.len() - 1,
            )
        }),
{
    reveal_strlit("Restore: ");
    reveal_strlit("- ");
    reveal_strlit(" [");
    reveal_strlit("]");
    let thread = archived[offset + k];
    let label = thread.label();
    let line = thread.line();
    let key = thread.thread_key@;
    assert(page_of(archived, offset)[k] == thread);
    assert(thread.button(offset as nat).label.subrange(9, 9 + label.len() as int) =~= label);
    assert(line.subrange(2, 2 + label.len() as int) =~= label);
    assert(line.subrange(line.len() - key.len() - 1, line.len() - 1) =~= key);
}

/// A page is turned back by eight threads, though not before the first, and forward by eight while
/// there are more. From the next page one turns back to where one was.
pub proof fn law_pages_are_turned_by_their_size(count: int, offset: int)
    requires
        0 <= offset,
    ensures
        page_turns(count, offset).len() == (if offset > 0 {
            1int
        } else {
            0
        }) + (if offset + 8 < count {
            1int
        } else {
            0
        }),
        offset > 0 ==> page_turns(count, offset)[0] == page_button(
            "Previous"@,
            (if offset < 8 {
                0
            } else {
                offset - 8
            }) as nat,
        ),
        offset + 8 < count ==> page_turns(count, offset).last() == page_button(
            "Next"@,
            (offset + 8) as nat,
        ),
        offset + 8 < count ==> page_turns(count, offset + 8)[0] == page_button(
            "Previous"@,
            offset as nat,
        ),
{
}

/// A restored thread keeps the title that it had, where it had one, with a mark behind it.
pub proof fn law_restored_titles_keep_the_title(title: Seq<char>, message_thread_id: Option<i32>)
    ensures
        !text::is_blank(title) ==> restored_title(Some(title), message_thread_id) == text::trimmed(
            title,
        ) + " · 已恢復"@,
        restored_title(None, message_thread_id) == numbered(message_thread_id) + " · 已恢復"@,
        text::is_blank(title) ==> restored_title(Some(title), message_thread_id) == restored_title(
            None,
            message_thread_id,
        ),
        message_thread_id matches Some(id) ==> text::occurs_at(
            numbered(message_thread_id),
            text::signed_decimal(id as int),
            7,
        ),
{
    reveal_strlit("Thread ");
    if let Some(id) = message_thread_id {
        let number = text::signed_decimal(id as int);
        assert(numbered(message_thread_id).subrange(7, 7 + number.len() as int) =~= number);
    }
}

/// A thread is not restored where it is gone, active already, or bound to no session; what the user
/// is told is the first of these that holds.
pub proof fn law_refused_threads_are_told_why(thread: RestorableThread)
    ensures
        restore_next(RestoreStage::FindThread, RestoreEvent::Thread(None)).1 == (
        RestoreStep::Alert { alert: RestoreAlert::Missing }),
        ({
            let found = restore_next(RestoreStage::FindThread, RestoreEvent::Thread(Some(thread)));
            &&& !thread.is_archived ==> found.1 == (RestoreStep::Alert {
                alert: RestoreAlert::AlreadyActive,
            })
            &&& thread.is_archived && thread.session is None ==> found.1 == (RestoreStep::Alert {
                alert: RestoreAlert::Unusable { session: None },
            })
            &&& thread.is_archived ==> (thread.session matches Some(session) ==> (
            session.current_codex_thread_id is None ==> found.1 == (RestoreStep::Alert {
                alert: RestoreAlert::Unusable { session: Some(session) },
            })))
        }),
{
}

/// A thread whose session gave a recap is restored step by step: its binding is marked as verified,
/// a topic is made under its title, the thread goes into that topic, its runtime is made to run, and
/// the recap of the session is what is sent there.
pub proof fn law_restored_threads_get_their_topic_and_recap(
    title: Option<String>,
    message_thread_id: Option<i32>,
    target: TurnTarget,
    recap: String,
    thread_id: i32,
    name: String,
)
    ensures
        ({
            let asked = restore_next(
                RestoreStage::PrepareRuntime { title, message_thread_id, target },
                RestoreEvent::Done,
            );
            let told = restore_next(asked.0, RestoreEvent::Recap(recap));
            let verified = restore_next(told.0, RestoreEvent::Done);
            let made = restore_next(verified.0, RestoreEvent::Topic { thread_id, name });
            let restored = restore_next(made.0, RestoreEvent::Done);
            let ensured = restore_next(restored.0, RestoreEvent::Done);
            let logged = restore_next(ensured.0, RestoreEvent::Done);
            let answered = restore_next(logged.0, RestoreEvent::Done);
            let announced = restore_next(answered.0, RestoreEvent::Done);
            let sent = restore_next(announced.0, RestoreEvent::Done);
            &&& asked.1 == (RestoreStep::Recap { target })
            &&& told.1 is MarkVerified
            &&& verified.1 == (RestoreStep::CreateTopic { title, message_thread_id })
            &&& made.1 == (RestoreStep::Restore { thread_id, name })
            &&& restored.1 == (RestoreStep::PrepareRuntime { workspace: target.workspace })
            &&& ensured.1 == (RestoreStep::Log { topic: name, thread_id })
            &&& logged.1 is Answer
            &&& answered.1 == (RestoreStep::Announce { topic: name })
            &&& announced.1 == (RestoreStep::SendRecap { recap })
            &&& sent.1 is ShowPage
            &&& restore_next(sent.0, RestoreEvent::Done).1 == (RestoreStep::Finish {
                outcome: Ok(()),
            })
        }),
{
}

/// A session that cannot be resumed leaves the binding marked as broken for its reason, and the user
/// told; no topic is made.
pub proof fn law_sessions_that_do_not_resume_are_marked(
    title: Option<String>,
    message_thread_id: Option<i32>,
    workspace: String,
    reason: String,
)
    ensures
        ({
            let refused = restore_next(
                RestoreStage::Recap { title, message_thread_id, workspace },
                RestoreEvent::Refused(reason),
            );
            let told = restore_next(refused.0, RestoreEvent::Done);
            &&& refused.1 == (RestoreStep::MarkBroken { reason })
            &&& told.1 == (RestoreStep::Alert { alert: RestoreAlert::NotResumed })
            &&& restore_next(told.0, RestoreEvent::Done).1 == (RestoreStep::Finish {
                outcome: Ok(()),
            })
        }),
{
}

/// The first message of a restored thread ends with the recap, or says that there is none.
pub proof fn law_recaps_are_sent(recap: Seq<char>)
    ensures
        ({
            let said = recap_text(recap);
            let end = if text::is_blank(recap) {
                "This thread was restored from archive, but Codex did not return a recap."@
            } else {
                text::trimmed(recap)
            };
            text::occurs_at(said, end, said.len() - end.len())
        }),
{
    let said = recap_text(recap);
    let end = if text::is_blank(recap) {
        "This thread was restored from archive, but Codex did not return a recap."@
    } else {
        text::trimmed(recap)
    };
    assert(said.subrange(said.len() - end.len(), said.len() as int) =~= end);
}

/// A thread whose binding names a session but no workspace is not restored, for that reason, and
/// nothing is taken that was not asked for.
pub proof fn law_restoring_needs_a_workspace(thread: RestorableThread, event: RestoreEvent)
    requires
        thread.is_archived,
        thread.session is Some,
        thread.session->0.workspace_cwd is None,
        thread.session->0.current_codex_thread_id is Some,
        !text::is_blank(thread.session->0.current_codex_thread_id->0@),
    ensures
        restore_next(RestoreStage::FindThread, RestoreEvent::Thread(Some(thread))).1 == (
        RestoreStep::Finish { outcome: Err(RestoreError::MissingWorkspace) }),
        restore_next(RestoreStage::Finished, event).1 == (RestoreStep::Finish {
            outcome: Err(RestoreError::OutOfTurn),
        }),
        event !is Thread && event !is Failed ==> restore_next(RestoreStage::FindThread, event).1
            == (RestoreStep::Finish { outcome: Err(RestoreError::OutOfTurn) }),
{
}

/// A page without archived threads says so, and every other ends with what to do.
pub proof fn law_pages_say_what_to_do(archived: Seq<ArchivedThread>, offset: int)
    ensures
        page_text(Seq::empty(), offset) == "No archived threads are available."@,
        page_rows(Seq::empty(), offset).len() == 0,
        archived.len() > 0 ==> "Archived threads:\n"@.is_prefix_of(page_text(archived, offset)),
        archived.len() > 0 ==> text::occurs_at(
            page_text(archived, offset),
            "Choose one to restore."@,
            page_text(archived, offset).len() - 22,
        ),
{
    reveal_strlit("\n\nChoose one to restore.");
    reveal_strlit("Choose one to restore.");
    let said = page_text(archived, offset);
    if archived.len() > 0 {
        let head = "Archived threads:\n"@;
        assert(head =~= said.subrange(0, head.len() as int));
        assert(said.subrange(said.len() - 22, said.len() as int) =~= "Choose one to restore."@);
    }
}

} // verus!
