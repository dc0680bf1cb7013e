//! The Telegram front end: what it says, what it decides, and in which order it acts.
use vstd::prelude::*;
use vstd::string::*;

use crate::collaboration_mode::CollaborationMode;
use crate::interactive::{InteractivePromptSnapshot, ToolRequestUserInputQuestion};
use crate::repository;
use crate::repository::{BindingModel, SessionBinding};
use crate::runtime_control;
use crate::text;
use crate::thread_state::{BindingStatus, ResolvedThreadState, RunStatus};
use crate::workspace_status::SessionCurrentStatus;

pub mod busy_copy;
pub mod callbacks;
pub mod codex_home_session_mirror;
pub mod command_flow;
pub mod commands;
pub mod deliveries;
pub mod final_reply;
pub mod image_batches;
pub mod interaction_bridge;
pub mod media;
pub mod preview;
pub mod restore;
pub mod status_sync;
pub mod text_flow;
pub mod thread_flow;
pub mod title_sync;
pub mod turn_watch;

pub use callbacks::{Button, Keyboard};
pub use commands::{command_argument_text, command_list, Command};
pub use runtime_control::current_bound_session_id;

verus! {

broadcast use vstd::string::group_string_axioms;

/// Who speaks in a message.
#[derive(Clone, Copy, Debug, PartialEq, Eq, Structural)]
pub enum TelegramTextRole {
    User,
    Assistant,
}

/// What a message of the system is for.
#[derive(Clone, Copy, Debug, PartialEq, Eq, Structural)]
pub enum TelegramSystemIntent {
    Info,
    Question,
    Warning,
}

/// The marker of a role.
pub open spec fn role_marker(role: TelegramTextRole) -> Seq<char> {
    match role {
        TelegramTextRole::User => "□"@,
        TelegramTextRole::Assistant => "■"@,
    }
}

/// The marker of an intent.
pub open spec fn system_marker(intent: TelegramSystemIntent) -> Seq<char> {
    match intent {
        TelegramSystemIntent::Info => "Info:"@,
        TelegramSystemIntent::Question => "Question:"@,
        TelegramSystemIntent::Warning => "Warning:"@,
    }
}

/// A marker, and the trimmed text behind it where there is any.
pub open spec fn prefixed(marker: Seq<char>, body: Seq<char>) -> Seq<char> {
    if text::is_blank(body) {
        marker
    } else {
        marker + " "@ + text::trimmed(body)
    }
}

/// The marker of a role.
pub fn telegram_role_marker(role: TelegramTextRole) -> (res: &'static str)
    ensures
        res@ == role_marker(role),
{
    match role {
        TelegramTextRole::User => "□",
        TelegramTextRole::Assistant => "■",
    }
}

/// A marker, and the trimmed text behind it where there is any.
pub fn format_prefixed_text(marker: &str, body: &str) -> (res: String)
    ensures
        res@ == prefixed(marker@, body@),
{
    let body = text::trim(body);
    let mut res = marker.to_owned();
    if !body.is_empty() {
        res.push_str(" ");
        res.push_str(body);
    }
    res
}

/// What a role says, with its marker.
pub fn format_role_text(role: TelegramTextRole, body: &str) -> (res: String)
    ensures
        res@ == prefixed(role_marker(role), body@),
{
    format_prefixed_text(telegram_role_marker(role), body)
}

/// The marker of an intent.
pub fn telegram_system_marker(intent: TelegramSystemIntent) -> (res: &'static str)
    ensures
        res@ == system_marker(intent),
{
    match intent {
        TelegramSystemIntent::Info => "Info:",
        TelegramSystemIntent::Question => "Question:",
        TelegramSystemIntent::Warning => "Warning:",
    }
}

/// A message of the system, with its marker.
pub fn format_system_text(intent: TelegramSystemIntent, body: &str) -> (res: String)
    ensures
        res@ == prefixed(system_marker(intent), body@),
{
    format_prefixed_text(telegram_system_marker(intent), body)
}

pub const PLAN_IMPLEMENTATION_TEXT: &'static str = "Implement this plan?";

pub const PLAN_IMPLEMENTATION_MESSAGE: &'static str = "Implement the plan.";

/// Whether a user may talk to the bot.
pub fn is_authorized(user_id: Option<i64>, authorized_user_ids: &Vec<i64>) -> (res: bool)
    ensures
        res == (user_id matches Some(id) && authorized_user_ids@.contains(id)),
{
    let id: i64 = match user_id {
        Some(id) => id,
        None => return false,
    };
    let mut i: usize = 0;
    while i < authorized_user_ids.len()
        invariant
            i <= authorized_user_ids@.len(),
            user_id == Some(id),
            forall|k: int| 0 <= k < i ==> #[trigger] authorized_user_ids@[k] != id,
        decreases authorized_user_ids@.len() - i,
    {
        if authorized_user_ids[i] == id {
            return true;
        }
        i += 1;
    }
    false
}

/// Whether a message comes from the control chat: a private chat, outside any thread.
pub fn is_control_chat(is_private: bool, thread_id: Option<i32>) -> (res: bool)
    ensures
        res == (is_private && thread_id is None),
{
    is_private && thread_id.is_none()
}

/// What a user is told whose command failed.
pub fn command_failure_warning(reason: &str) -> (res: String)
    ensures
        res@ == "Command failed: "@ + reason@,
{
    text::concat2("Command failed: ", reason)
}

/// How the press of a button is answered that came to nothing.
pub fn callback_failure_answer() -> (res: &'static str)
    ensures
        res@ == "Action failed."@,
{
    "Action failed."
}

/// The session that blocks what is to be done in a thread: a busy one, where the thread runs.
pub fn blocking_snapshot(
    state: ResolvedThreadState,
    busy: Option<SessionCurrentStatus>,
) -> (res: Option<SessionCurrentStatus>)
    ensures
        res == if state.run_status == RunStatus::Running {
            busy
        } else {
            None
        },
{
    if state.is_running() {
        busy
    } else {
        None
    }
}

/// The thread that a service message about a renamed topic is about.
pub fn topic_rename_service_message_thread_id(is_topic_edited: bool, thread_id: Option<i32>) -> (res:
    Option<i32>)
    ensures
        res == if is_topic_edited {
            thread_id
        } else {
            None
        },
{
    if is_topic_edited {
        thread_id
    } else {
        None
    }
}

/// What is done with a message.
#[derive(Debug, PartialEq, Eq)]
pub enum MessageRoute {
    Ignore,
    Image,
    Text(String),
}

/// What is done with a message that is no service message: only users who may talk to the
/// bot are heard, an image is queued, and a text that is no command is a prompt.
pub fn route_message(authorized: bool, has_image: bool, text: Option<&str>) -> (res: MessageRoute)
    ensures
        match res {
            MessageRoute::Ignore => !authorized || (!has_image && match text::filled(
                text::opt_str_view(text),
            ) {
                Some(body) => body[0] == '/',
                None => true,
            }),
            MessageRoute::Image => authorized && has_image,
            MessageRoute::Text(body) => authorized && !has_image && text::filled(
                text::opt_str_view(text),
            ) == Some(body@) && body@[0] != '/',
        },
{
    if !authorized {
        return MessageRoute::Ignore;
    }
    if has_image {
        return MessageRoute::Image;
    }
    match text::trim_filled(text) {
        Some(body) => {
            let chars = text::to_chars(body);
            if chars[0] == '/' {
                MessageRoute::Ignore
            } else {
                MessageRoute::Text(body.to_owned())
            }
        },
        None => MessageRoute::Ignore,
    }
}

/// The mode of a session; default mode where nothing else was chosen.
pub open spec fn mode_of(session: Option<BindingModel>) -> CollaborationMode {
    match session {
        Some(binding) => match binding.current_collaboration_mode {
            Some(mode) => mode,
            None => CollaborationMode::Default,
        },
        None => CollaborationMode::Default,
    }
}

/// The mode of a session.
pub fn collaboration_mode_for_session(session: Option<&SessionBinding>) -> (res: CollaborationMode)
    ensures
        res == mode_of(repository::opt_binding_ref(session)),
{
    match session {
        Some(binding) => match binding.current_collaboration_mode {
            Some(mode) => mode,
            None => CollaborationMode::Default,
        },
        None => CollaborationMode::Default,
    }
}

/// The session that a prompt can go to: that of a healthy binding.
pub open spec fn usable_session(state: ResolvedThreadState, session: Option<BindingModel>) -> Option<
    Seq<char>,
> {
    if state.binding_status == BindingStatus::Healthy {
        runtime_control::bound_session(session)
    } else {
        None
    }
}

/// The session that a prompt can go to.
pub fn usable_bound_session_id(state: ResolvedThreadState, session: Option<&SessionBinding>) -> (res:
    Option<&str>)
    ensures
        text::opt_str_view(res) == usable_session(state, repository::opt_binding_ref(session)),
{
    if state.binding_status != BindingStatus::Healthy {
        return None;
    }
    runtime_control::current_bound_session_id(session)
}

/// Why something that runs in steps came to nothing.
#[derive(Debug, Clone, PartialEq, Eq)]
pub enum FlowError {
    /// A step outside failed, for the reason given.
    Outside(String),
    /// The message came from outside a thread.
    MissingThreadId,
    /// The binding of the thread names no workspace.
    MissingWorkspace,
    /// Something was reported that was not asked for.
    OutOfTurn,
}

impl FlowError {
    /// The reason, in words.
    pub fn to_text(&self) -> (res: String)
        ensures
            res@ == match *self {
                FlowError::Outside(reason) => reason@,
                FlowError::MissingThreadId => "thread message missing thread id"@,
                FlowError::MissingWorkspace => "session binding is missing workspace_cwd"@,
                FlowError::OutOfTurn => "a step was reported that was not asked for"@,
            },
    {
        match self {
            FlowError::Outside(reason) => reason.clone(),
            FlowError::MissingThreadId => "thread message missing thread id".to_owned(),
            FlowError::MissingWorkspace => "session binding is missing workspace_cwd".to_owned(),
            FlowError::OutOfTurn => "a step was reported that was not asked for".to_owned(),
        }
    }
}

/// The id of a session, as a binding keeps it; white space around it is no part of it.
#[derive(Debug)]
pub struct SessionId {
    pub stored: String,
}

impl View for SessionId {
    type V = Seq<char>;

    open spec fn view(&self) -> Seq<char> {
        text::trimmed(self.stored@)
    }
}

impl SessionId {
    /// The id.
    pub fn as_str(&self) -> (res: &str)
        ensures
            res@ == self@,
    {
        text::trim(self.stored.as_str())
    }

    /// The same id.
    pub fn copy(&self) -> (res: Self)
        ensures
            res == *self,
    {
        SessionId { stored: self.stored.clone() }
    }
}

/// What a turn continues: a session, in its workspace.
#[derive(Debug)]
pub struct TurnTarget {
    pub session_id: SessionId,
    pub workspace: String,
}

impl TurnTarget {
    /// The same target.
    pub fn copy(&self) -> (res: Self)
        ensures
            res == *self,
    {
        TurnTarget { session_id: self.session_id.copy(), workspace: self.workspace.clone() }
    }
}

/// What a turn of a binding continues, where the binding names a session and a workspace.
pub open spec fn binding_target(binding: SessionBinding) -> Option<TurnTarget> {
    match (binding.current_codex_thread_id, binding.workspace_cwd) {
        (Some(stored), Some(workspace)) => Some(
            TurnTarget { session_id: SessionId { stored }, workspace },
        ),
        _ => None,
    }
}

/// What a turn of a binding continues.
pub fn target_of_binding(binding: &SessionBinding) -> (res: Option<TurnTarget>)
    ensures
        res == binding_target(*binding),
{
    match (&binding.current_codex_thread_id, &binding.workspace_cwd) {
        (Some(stored), Some(workspace)) => Some(
            TurnTarget {
                session_id: SessionId { stored: stored.clone() },
                workspace: workspace.clone(),
            },
        ),
        _ => None,
    }
}

/// What is known of a thread before something is done with it.
#[derive(Debug)]
pub struct ThreadFacts {
    pub state: ResolvedThreadState,
    pub session: Option<SessionBinding>,
    /// What the thread is busy with, if it is.
    pub busy: Option<SessionCurrentStatus>,
}

impl ThreadFacts {
    /// The session that a prompt can go to.
    pub open spec fn usable(self) -> Option<Seq<char>> {
        usable_session(self.state, repository::opt_binding(self.session))
    }

    /// Whether there is a session that a prompt can go to.
    pub fn is_usable(&self) -> (res: bool)
        ensures
            res == (self.usable() is Some),
    {
        match &self.session {
            Some(session) => usable_bound_session_id(self.state, Some(session)).is_some(),
            None => false,
        }
    }

    /// What a turn of the thread continues: its session, where it is usable, in the workspace that
    /// its binding names.
    pub open spec fn target(self) -> Option<TurnTarget> {
        if self.usable() is None {
            None
        } else {
            binding_target(self.session->0)
        }
    }

    /// What a turn of the thread continues.
    pub fn turn_target(&self) -> (res: Option<TurnTarget>)
        ensures
            res == self.target(),
    {
        if !self.is_usable() {
            return None;
        }
        match &self.session {
            Some(session) => target_of_binding(session),
            None => None,
        }
    }
}

/// A turn continues the session that a prompt to the thread can go to, in the workspace of its
/// binding; there is such a turn unless the session is not usable or the workspace not known.
pub proof fn law_turns_continue_the_usable_session(facts: ThreadFacts)
    ensures
        facts.target() is Some <==> facts.usable() is Some && facts.session->0.workspace_cwd is Some,
        facts.target() matches Some(target) ==> facts.usable() == Some(target.session_id@)
            && facts.session->0.workspace_cwd == Some(target.workspace),
{
}

/// What a user is told of a thread that is not bound.
pub open spec fn unbound_hint() -> Seq<char> {
    "This workspace thread is not bound yet. Archive it and re-add the workspace from the control chat with /add_workspace <absolute-path>."@
}

/// What a user is told of a healthy binding.
pub open spec fn healthy_hint(session: Option<BindingModel>) -> Seq<char> {
    if runtime_control::bound_session(session) is Some {
        "This workspace already has a usable Codex session."@
    } else {
        "This workspace is missing a usable Codex session id. Use /new_session to start a fresh one."@
    }
}

/// What a user is told of a binding.
pub open spec fn binding_hint(session: Option<BindingModel>) -> Seq<char> {
    if session is Some {
        healthy_hint(session)
    } else {
        unbound_hint()
    }
}

/// What a user is told of a binding whose state is known.
pub open spec fn state_hint(state: ResolvedThreadState, session: Option<BindingModel>) -> Seq<char> {
    match state.binding_status {
        BindingStatus::Broken => {
            "This workspace's Codex session is invalid. Use /repair_session to verify it again or /new_session to start a fresh one for the same workspace."@
        },
        BindingStatus::Unbound => unbound_hint(),
        BindingStatus::Healthy => if usable_session(state, session) is None {
            healthy_hint(session)
        } else {
            binding_hint(session)
        },
    }
}

/// What a user is told of a healthy binding.
pub fn healthy_binding_hint(session: Option<&SessionBinding>) -> (res: &'static str)
    ensures
        res@ == healthy_hint(repository::opt_binding_ref(session)),
{
    if runtime_control::current_bound_session_id(session).is_some() {
        "This workspace already has a usable Codex session."
    } else {
        "This workspace is missing a usable Codex session id. Use /new_session to start a fresh one."
    }
}

/// What a user is told of a binding.
pub fn session_binding_hint(session: Option<&SessionBinding>) -> (res: &'static str)
    ensures
        res@ == binding_hint(repository::opt_binding_ref(session)),
{
    if session.is_some() {
        healthy_binding_hint(session)
    } else {
        "This workspace thread is not bound yet. Archive it and re-add the workspace from the control chat with /add_workspace <absolute-path>."
    }
}

/// What a user is told of a binding whose state is known.
pub fn session_binding_hint_for_state(
    state: ResolvedThreadState,
    session: Option<&SessionBinding>,
) -> (res: &'static str)
    ensures
        res@ == state_hint(state, repository::opt_binding_ref(session)),
{
    match state.binding_status {
        BindingStatus::Broken => {
            "This workspace's Codex session is invalid. Use /repair_session to verify it again or /new_session to start a fresh one for the same workspace."
        },
        BindingStatus::Unbound => {
            "This workspace thread is not bound yet. Archive it and re-add the workspace from the control chat with /add_workspace <absolute-path>."
        },
        BindingStatus::Healthy => {
            if usable_bound_session_id(state, session).is_none() {
                healthy_binding_hint(session)
            } else {
                session_binding_hint(session)
            }
        },
    }
}

/// What a user is told of a binding whose state is known.
pub fn hint_text(state: ResolvedThreadState, session: &Option<SessionBinding>) -> (res: String)
    ensures
        res@ == state_hint(state, repository::opt_binding(*session)),
{
    match session {
        Some(session) => session_binding_hint_for_state(state, Some(session)).to_owned(),
        None => session_binding_hint_for_state(state, None).to_owned(),
    }
}

/// The lines of a question that offers answers.
pub open spec fn option_lines(question: ToolRequestUserInputQuestion) -> Seq<Seq<char>> {
    let options = question.options->0@;
    Seq::new(
        options.len(),
        |i: int| "- "@ + options[i].label@ + ": "@ + options[i].description@,
    ).push("- Other: reply with your own text"@)
}

/// The lines of a question as the user sees it.
pub open spec fn prompt_lines(snapshot: InteractivePromptSnapshot) -> Seq<Seq<char>> {
    let question = snapshot.question;
    let head = seq![
        prefixed(
            system_marker(TelegramSystemIntent::Question),
            question.header@ + ": "@ + question.question@,
        ),
    ];
    if question.is_secret {
        head.push("Secret input is not supported in Telegram v1."@)
    } else if snapshot.awaiting_freeform_text || question.options is None || question.is_other {
        head.push("Reply with your next text message in this thread."@)
    } else {
        head + option_lines(question)
    }
}

/// A question as the user sees it.
pub fn render_request_user_input_prompt(snapshot: &InteractivePromptSnapshot) -> (res: String)
    ensures
        res@ == text::joined(prompt_lines(*snapshot), "\n"@),
{
    let question = &snapshot.question;
    let asked = text::concat3(question.header.as_str(), ": ", question.question.as_str());
    let mut lines: Vec<String> = Vec::new();
    text::push_line(&mut lines, format_system_text(TelegramSystemIntent::Question, asked.as_str()));
    let ghost head = text::views(lines@);
    if question.is_secret {
        text::push_line(&mut lines, "Secret input is not supported in Telegram v1.".to_owned());
    } else if snapshot.awaiting_freeform_text || question.options.is_none() || question.is_other {
        text::push_line(&mut lines, "Reply with your next text message in this thread.".to_owned());
    } else {
        match &question.options {
            Some(options) => {
                let ghost all = option_lines(*question);
                let mut i: usize = 0;
                while i < options.len()
                    invariant
                        i <= options@.len(),
                        question.options == Some(*options),
                        all == option_lines(*question),
                        text::views(lines@) =~= head + all.take(i as int),
                    decreases options@.len() - i,
                {
                    let line = text::concat4(
                        "- ",
                        options[i].label.as_str(),
                        ": ",
                        options[i].description.as_str(),
                    );
                    proof {
                        assert(all[i as int] == line@);
                    }
                    text::push_line(&mut lines, line);
                    proof {
                        assert(head + all.take(i + 1) =~= (head + all.take(i as int)).push(
                            all[i as int],
                        ));
                    }
                    i += 1;
                }
                text::push_line(&mut lines, "- Other: reply with your own text".to_owned());
                proof {
                    assert(text::views(lines@) =~= head + all);
                }
            },
            None => {},
        }
    }
    proof {
        assert(text::views(lines@) =~= prompt_lines(*snapshot));
    }
    text::join(&lines, "\n")
}

/// The buttons of a question: one for each answer that is offered, and one for another.
pub open spec fn option_rows(request_id: i64, question: ToolRequestUserInputQuestion) -> Seq<
    Seq<callbacks::ButtonModel>,
> {
    let options = question.options->0@;
    Seq::new(
        options.len(),
        |i: int|
            seq![
                callbacks::ButtonModel {
                    label: options[i].label@,
                    data: callbacks::button_data(
                        seq![
                            callbacks::CALLBACK_REQUEST_USER_INPUT_OPTION@,
                            text::signed_decimal(request_id as int),
                            text::decimal(i as nat),
                        ],
                    ),
                },
            ],
    ).push(
        seq![
            callbacks::ButtonModel {
                label: "Other"@,
                data: callbacks::button_data(
                    seq![
                        callbacks::CALLBACK_REQUEST_USER_INPUT_OPTION@,
                        text::signed_decimal(request_id as int),
                        "other"@,
                    ],
                ),
            },
        ],
    )
}

/// The buttons of a question that offers answers.
pub fn request_user_input_markup(request_id: i64, question: &ToolRequestUserInputQuestion) -> (res:
    Option<Keyboard>)
    ensures
        match res {
            Some(keyboard) => question.options is Some && keyboard@ == option_rows(
                request_id,
                *question,
            ),
            None => question.options is None,
        },
{
    match &question.options {
        Some(options) => {
            let ghost all = option_rows(request_id, *question);
            let id = text::signed_decimal_text(request_id);
            let mut keyboard = Keyboard::new();
            let mut i: usize = 0;
            proof {
                assert(keyboard@ =~= all.take(0));
            }
            while i < options.len()
                invariant
                    i <= options@.len(),
                    question.options == Some(*options),
                    id@ == text::signed_decimal(request_id as int),
                    all == option_rows(request_id, *question),
                    keyboard@ =~= all.take(i as int),
                decreases options@.len() - i,
            {
                let index = text::decimal_text(i as u64);
                let data = callbacks::data_of_three(
                    callbacks::CALLBACK_REQUEST_USER_INPUT_OPTION,
                    id.as_str(),
                    index.as_str(),
                );
                let label = options[i].label.clone();
                proof {
                    assert(all[i as int] =~= seq![
                        callbacks::ButtonModel { label: label@, data: data@ },
                    ]);
                }
                keyboard.push_button(label, data);
                i += 1;
            }
            let data = callbacks::data_of_three(
                callbacks::CALLBACK_REQUEST_USER_INPUT_OPTION,
                id.as_str(),
                "other",
            );
            keyboard.push_button("Other".to_owned(), data);
            proof {
                assert(keyboard@ =~= all);
            }
            Some(keyboard)
        },
        None => None,
    }
}

/// The question what becomes of a plan.
pub fn plan_implementation_prompt_text() -> (res: String)
    ensures
        res@ == prefixed(
            system_marker(TelegramSystemIntent::Question),
            PLAN_IMPLEMENTATION_TEXT@,
        ),
{
    format_system_text(TelegramSystemIntent::Question, PLAN_IMPLEMENTATION_TEXT)
}

/// The buttons of the question what becomes of a plan.
pub fn plan_implementation_markup() -> (res: Keyboard)
    ensures
        res@ == seq![
            seq![
                callbacks::ButtonModel {
                    label: "Yes, implement this plan"@,
                    data: callbacks::button_data(
                        seq![callbacks::CALLBACK_PLAN_IMPLEMENT@, "yes"@],
                    ),
                },
            ],
            seq![
                callbacks::ButtonModel {
                    label: "No, stay in Plan mode"@,
                    data: callbacks::button_data(
                        seq![callbacks::CALLBACK_PLAN_IMPLEMENT@, "no"@],
                    ),
                },
            ],
        ],
{
    let mut res = Keyboard::new();
    res.push_button(
        "Yes, implement this plan".to_owned(),
        callbacks::data_of_two(callbacks::CALLBACK_PLAN_IMPLEMENT, "yes"),
    );
    res.push_button(
        "No, stay in Plan mode".to_owned(),
        callbacks::data_of_two(callbacks::CALLBACK_PLAN_IMPLEMENT, "no"),
    );
    res
}

/// The mode of a session is the one that its binding names, and default mode where it names none and
/// where there is no binding.
pub proof fn law_sessions_have_the_mode_of_their_binding(session: SessionBinding)
    ensures
        mode_of(Some(session@)) == match session.current_collaboration_mode {
            Some(chosen) => chosen,
            None => CollaborationMode::Default,
        },
        mode_of(None) == CollaborationMode::Default,
{
}

/// A prompt can go to the session that the binding names, where the binding is healthy and the name
/// is more than white space.
pub proof fn law_prompts_need_a_healthy_session(
    state: ResolvedThreadState,
    session: Option<BindingModel>,
)
    ensures
        usable_session(state, session) is Some <==> state.binding_status is Healthy && session
            is Some && session->0.current_codex_thread_id is Some && !text::is_blank(
            session->0.current_codex_thread_id->0,
        ),
        usable_session(state, session) matches Some(id) ==> id == text::trimmed(
            session->0.current_codex_thread_id->0,
        ),
{
}

/// A marker stands before what is said, with a blank between them; where nothing is said it stands
/// alone. Roles and intents have markers of their own.
pub proof fn law_markers_stand_before_the_text(marker: Seq<char>, body: Seq<char>)
    ensures
        text::is_blank(body) ==> prefixed(marker, body) == marker,
        !text::is_blank(body) ==> prefixed(marker, body) == marker + " "@ + text::trimmed(body),
        role_marker(TelegramTextRole::User) == "□"@,
        role_marker(TelegramTextRole::Assistant) == "■"@,
        system_marker(TelegramSystemIntent::Info) == "Info:"@,
        system_marker(TelegramSystemIntent::Question) == "Question:"@,
        system_marker(TelegramSystemIntent::Warning) == "Warning:"@,
{
}

/// A user whose session is broken is sent to /repair_session and /new_session, one whose thread is
/// not bound to /add_workspace, and one whose healthy binding names no session to /new_session.
pub proof fn law_hints_say_what_to_do(state: ResolvedThreadState, session: Option<BindingModel>)
    ensures
        state.binding_status is Broken ==> text::contains(
            state_hint(state, session),
            "/repair_session"@,
        ) && text::contains(state_hint(state, session), "/new_session"@),
        state.binding_status is Unbound ==> text::contains(
            state_hint(state, session),
            "/add_workspace"@,
        ),
        state.binding_status is Healthy && runtime_control::bound_session(session) is None
            ==> text::contains(state_hint(state, session), "/new_session"@),
{
    reveal_strlit("/repair_session");
    reveal_strlit("/new_session");
    reveal_strlit("/add_workspace");
    reveal_strlit(
        "This workspace's Codex session is invalid. Use /repair_session to verify it again or /new_session to start a fresh one for the same workspace.",
    );
    reveal_strlit(
        "This workspace thread is not bound yet. Archive it and re-add the workspace from the control chat with /add_workspace <absolute-path>.",
    );
    reveal_strlit(
        "This workspace is missing a usable Codex session id. Use /new_session to start a fresh one.",
    );
    let broken =
        "This workspace's Codex session is invalid. Use /repair_session to verify it again or /new_session to start a fresh one for the same workspace."@;
    let unbound = unbound_hint();
    let missing =
        "This workspace is missing a usable Codex session id. Use /new_session to start a fresh one."@;
    assert(broken.subrange(47, 62) =~= "/repair_session"@);
    assert(text::occurs_at(broken, "/repair_session"@, 47));
    assert(broken.subrange(85, 97) =~= "/new_session"@);
    assert(text::occurs_at(broken, "/new_session"@, 85));
    assert(unbound.subrange(103, 117) =~= "/add_workspace"@);
    assert(text::occurs_at(unbound, "/add_workspace"@, 103));
    assert(missing.subrange(57, 69) =~= "/new_session"@);
    assert(text::occurs_at(missing, "/new_session"@, 57));
}

/// A question that offers answers shows each of them on a line of its own, in their order, and that
/// another answer can be given; one that offers none asks for a reply, and a secret is not asked for.
pub proof fn law_questions_show_their_answers(snapshot: InteractivePromptSnapshot, i: int)
    ensures
        ({
            let question = snapshot.question;
            let lines = prompt_lines(snapshot);
            let asks_for_text = snapshot.awaiting_freeform_text || question.options is None
                || question.is_other;
            &&& lines[0] == prefixed(
                "Question:"@,
                question.header@ + ": "@ + question.question@,
            )
            &&& question.is_secret ==> lines.len() == 2 && lines[1]
                == "Secret input is not supported in Telegram v1."@
            &&& !question.is_secret && asks_for_text ==> lines.len() == 2 && lines[1]
                == "Reply with your next text message in this thread."@
            &&& !question.is_secret && !asks_for_text ==> lines.len() == question.options->0@.len()
                + 2 && lines.last() == "- Other: reply with your own text"@
            &&& !question.is_secret && !asks_for_text && 0 <= i < question.options->0@.len()
                ==> lines[i + 1] == "- "@ + question.options->0@[i].label@ + ": "@
                + question.options->0@[i].description@
        }),
{
}

/// The buttons of a question are one for each answer, in their order and with its label, and one for
/// another answer; each carries the request, and its own position or that it is another.
pub proof fn law_buttons_carry_their_answer(
    request_id: i64,
    question: ToolRequestUserInputQuestion,
    i: int,
)
    requires
        question.options is Some,
        0 <= i < question.options->0@.len(),
    ensures
        ({
            let rows = option_rows(request_id, question);
            &&& rows.len() == question.options->0@.len() + 1
            &&& rows[i].len() == 1 && rows[i][0].label == question.options->0@[i].label@
            &&& rows[i][0].data == callbacks::button_data(
                seq![
                    "request_user_input_option"@,
                    text::signed_decimal(request_id as int),
                    text::decimal(i as nat),
                ],
            )
            &&& rows.last().len() == 1 && rows.last()[0].label == "Other"@
            &&& rows.last()[0].data == callbacks::button_data(
                seq![
                    "request_user_input_option"@,
                    text::signed_decimal(request_id as int),
                    "other"@,
                ],
            )
        }),
{
}

} // verus!
