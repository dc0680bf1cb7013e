//! The commands of a user, each as a run of steps.
use vstd::prelude::*;
use vstd::string::*;

use crate::collaboration_mode::CollaborationMode;
use crate::execution_mode::ExecutionMode;
use crate::repository;
use crate::repository::SessionBinding;
use crate::runtime_control;
use crate::runtime_control::{
    HcodexLaunchConfigView, WorkspaceAddPreflight, WorkspaceExecutionModeView,
};
use crate::runtime_protocol::{
    InterruptRunningTurnState, LaunchLocalSessionTarget, RuntimeControlActionRequest,
    RuntimeControlActionResult, WorkingSessionRecordView, WorkingSessionSummaryView,
};
use crate::telegram_runtime;
use crate::telegram_runtime::busy_copy;
use crate::telegram_runtime::commands;
use crate::telegram_runtime::commands::Command;
use crate::telegram_runtime::thread_flow;
use crate::telegram_runtime::thread_flow::{LaunchCommandTarget, ThreadInfo};
use crate::telegram_runtime::{ThreadFacts, TurnTarget};
use crate::text;
use crate::thread_state::{LifecycleStatus, ResolvedThreadState};
use crate::workspace_status::SessionCurrentStatus;

verus! {

broadcast use vstd::string::group_string_axioms;

/// What is put on record of a workspace in which a title is to be made up.
pub const TITLE_SUMMARY: &'static str = "Generate Telegram topic title from conversation";

/// What is put on record of a workspace in which no title could be made up.
pub const FAILED_TITLE_SUMMARY: &'static str = "generate_title failed";

/// What is put on record when the control chat is opened.
pub const START_LOG: &'static str = "Control chat initialized from /start.";

/// What is put on record when a workspace is archived.
pub const ARCHIVE_LOG: &'static str = "Workspace archived.";

/// A command as it came in a message.
#[derive(Debug)]
pub struct CommandInput {
    pub command: Command,
    pub in_control_chat: bool,
    pub in_thread: bool,
    /// What stands behind the command.
    pub argument: Option<String>,
    /// The target that the argument names.
    pub launch_target: Option<LaunchCommandTarget>,
    /// The mode that the argument names.
    pub execution_mode: Option<ExecutionMode>,
}

/// The word that an argument stands behind, for a command that takes one.
pub open spec fn argument_word(command: Command) -> Option<Seq<char>> {
    match command {
        Command::AddWorkspace => Some("add_workspace"@),
        Command::LaunchLocalSession => Some("launch_local_session"@),
        Command::SetWorkspaceExecutionMode => Some("set_workspace_execution_mode"@),
        Command::SessionLog => Some("session_log"@),
        _ => None,
    }
}

/// The argument of a command in a message.
pub open spec fn argument_for(command: Command, message: Option<Seq<char>>) -> Option<Seq<char>> {
    match (argument_word(command), message) {
        (Some(word), Some(message)) => commands::argument_of(message, word),
        _ => None,
    }
}

impl CommandInput {
    /// A command as it came in a message.
    pub fn read(
        command: Command,
        message: Option<&str>,
        in_control_chat: bool,
        in_thread: bool,
    ) -> (res: Self)
        ensures
            res.command == command,
            res.in_control_chat == in_control_chat,
            res.in_thread == in_thread,
            text::opt_view(res.argument) == argument_for(command, text::opt_str_view(message)),
            match argument_for(command, text::opt_str_view(message)) {
                Some(argument) => {
                    &&& thread_flow::opt_target(res.launch_target) == thread_flow::launch_target(
                        argument,
                    )
                    &&& res.execution_mode == thread_flow::execution_mode_named(argument)
                },
                None => res.launch_target is None && res.execution_mode is None,
            },
    {
        let argument = match command {
            Command::AddWorkspace => commands::command_argument_text(message, "add_workspace"),
            Command::LaunchLocalSession => commands::command_argument_text(
                message,
                "launch_local_session",
            ),
            Command::SetWorkspaceExecutionMode => commands::command_argument_text(
                message,
                "set_workspace_execution_mode",
            ),
            Command::SessionLog => commands::command_argument_text(message, "session_log"),
            _ => None,
        };
        let launch_target = match &argument {
            Some(argument) => thread_flow::parse_launch_command_target(argument.as_str()),
            None => None,
        };
        let execution_mode = match &argument {
            Some(argument) => thread_flow::parse_execution_mode_argument(argument.as_str()),
            None => None,
        };
        CommandInput {
            command,
            in_control_chat,
            in_thread,
            argument,
            launch_target,
            execution_mode,
        }
    }
}

/// Why a command came to nothing.
#[derive(Debug, Clone, PartialEq, Eq)]
pub enum CommandError {
    /// A step outside failed, for the reason given.
    Outside(String),
    /// The message came from outside a thread.
    MissingThreadId,
    /// What was done is not what was asked for.
    UnexpectedResult { action: ExpectedAction },
    /// Another mode was set than the one that was asked for.
    WrongMode { returned: CollaborationMode, wanted: CollaborationMode },
    /// The thread is no longer active.
    NotActive,
    /// The binding names no workspace.
    MissingWorkspace,
    /// Something was reported that was not asked for.
    OutOfTurn,
}

/// An action whose result is looked at.
#[derive(Debug, Clone, Copy, PartialEq, Eq, Structural)]
pub enum ExpectedAction {
    Repair,
    ExecutionMode,
    CollaborationMode,
    Interrupt,
}

impl CommandError {
    /// The reason, in words.
    pub open spec fn message(self) -> Seq<char> {
        match self {
            CommandError::Outside(reason) => reason@,
            CommandError::MissingThreadId => "thread message missing thread id"@,
            CommandError::UnexpectedResult { action } => match action {
                ExpectedAction::Repair => {
                    "unexpected runtime control result for repair_session_binding"@
                },
                ExpectedAction::ExecutionMode => {
                    "unexpected runtime control result for set_workspace_execution_mode"@
                },
                ExpectedAction::CollaborationMode => {
                    "unexpected runtime control result for set_thread_collaboration_mode"@
                },
                ExpectedAction::Interrupt => {
                    "unexpected runtime control result for interrupt_running_turn"@
                },
            },
            CommandError::WrongMode { returned, wanted } => "collaboration mode action returned `"@
                + returned.name() + "` instead of `"@ + wanted.name() + "`"@,
            CommandError::NotActive => {
                "thread_key is not an active thread after collaboration mode change"@
            },
            CommandError::MissingWorkspace => "session binding is missing workspace_cwd"@,
            CommandError::OutOfTurn => "a step was reported that was not asked for"@,
        }
    }

    /// The reason, in words.
    pub fn to_text(&self) -> (res: String)
        ensures
            res@ == self.message(),
    {
        match self {
            CommandError::Outside(reason) => reason.clone(),
            CommandError::MissingThreadId => "thread message missing thread id".to_owned(),
            CommandError::UnexpectedResult { action } => match action {
                ExpectedAction::Repair => {
                    "unexpected runtime control result for repair_session_binding".to_owned()
                },
                ExpectedAction::ExecutionMode => {
                    "unexpected runtime control result for set_workspace_execution_mode".to_owned()
                },
                ExpectedAction::CollaborationMode => {
                    "unexpected runtime control result for set_thread_collaboration_mode".to_owned()
                },
                ExpectedAction::Interrupt => {
                    "unexpected runtime control result for interrupt_running_turn".to_owned()
                },
            },
            CommandError::WrongMode { returned, wanted } => text::concat5(
                "collaboration mode action returned `",
                returned.as_str(),
                "` instead of `",
                wanted.as_str(),
                "`",
            ),
            CommandError::NotActive => {
                "thread_key is not an active thread after collaboration mode change".to_owned()
            },
            CommandError::MissingWorkspace => "session binding is missing workspace_cwd".to_owned(),
            CommandError::OutOfTurn => "a step was reported that was not asked for".to_owned(),
        }
    }
}

/// What a user is told who gave a command.
#[derive(Debug)]
pub enum CommandNotice {
    ControlConsole,
    WorkspaceConsole,
    /// The command belongs elsewhere.
    WrongPlace { command: Command },
    AddUsage,
    AddBlocked { preflight: WorkspaceAddPreflight },
    Added { preflight: WorkspaceAddPreflight, reset_performed: bool, thread_key: String },
    Archived,
    NeverBound,
    NotBound,
    Unusable { state: ResolvedThreadState, session: Option<SessionBinding> },
    Busy { busy: SessionCurrentStatus },
    FreshSession,
    FreshFailed { reason: String },
    Repaired,
    NotRepaired,
    Info { info: ThreadInfo },
    /// How a local client is launched; refused if the argument said nothing that can be done.
    LaunchUsage { config: HcodexLaunchConfigView, refused: bool },
    LauncherMissing,
    Launched { target: LaunchLocalSessionTarget, mode: ExecutionMode },
    /// The mode of the workspace; refused if it was to be changed to nothing that there is.
    ModeView { view: WorkspaceExecutionModeView, refused: bool },
    ModeSet { view: WorkspaceExecutionModeView },
    SessionList { session: SessionBinding, summaries: Vec<WorkingSessionSummaryView> },
    SessionLogUsage,
    SessionMissing { session_id: String },
    SessionRecords { session_id: String, records: Vec<WorkingSessionRecordView> },
    StopFailed { reason: String },
    StopStarted { busy: SessionCurrentStatus },
    StopRequested { session_id: String, state: InterruptRunningTurnState },
    RenameFailed,
    /// What the session answered, which is trimmed to the title.
    Renamed { response: String },
    ModeIsNow { mode: CollaborationMode },
}

/// The word that stands for a target.
pub open spec fn target_name(target: LaunchLocalSessionTarget) -> Seq<char> {
    match target {
        LaunchLocalSessionTarget::New => "new"@,
        LaunchLocalSessionTarget::ContinueCurrent => "continue_current"@,
        LaunchLocalSessionTarget::Resume => "resume"@,
    }
}

/// Where a command belongs, in words.
pub open spec fn place_text(command: Command) -> Seq<char> {
    match command {
        Command::AddWorkspace => "Use /add_workspace <absolute-path> from the main private chat."@,
        Command::RestoreWorkspace => "Use /restore_workspace from the main private chat."@,
        Command::PlanMode => "Use this command inside a workspace thread."@,
        Command::DefaultMode => "Use this command inside a workspace thread."@,
        _ => "Use "@ + command.name() + " inside a workspace thread."@,
    }
}

fn render_place(command: Command) -> (res: String)
    ensures
        res@ == place_text(command),
{
    match command {
        Command::AddWorkspace => {
            "Use /add_workspace <absolute-path> from the main private chat.".to_owned()
        },
        Command::RestoreWorkspace => "Use /restore_workspace from the main private chat.".to_owned(),
        Command::PlanMode => "Use this command inside a workspace thread.".to_owned(),
        Command::DefaultMode => "Use this command inside a workspace thread.".to_owned(),
        _ => text::concat3("Use ", command.as_str(), " inside a workspace thread."),
    }
}

fn render_blocked(preflight: &WorkspaceAddPreflight) -> (res: String)
    ensures
        res@ == text::or_text(preflight.reason(), ""@) + "\n\n"@ + text::joined(
            preflight.lines(),
            "\n"@,
        ),
{
    let reason = preflight.blocking_reason();
    let found = preflight.render_text();
    text::concat3(text::text_or(text::as_deref(&reason), ""), "\n\n", found.as_str())
}

fn render_added(
    preflight: &WorkspaceAddPreflight,
    reset_performed: bool,
    thread_key: &str,
) -> (res: String)
    ensures
        res@ == text::joined(preflight.lines(), "\n"@) + "\nreset_performed: "@
            + runtime_control::answer(reset_performed) + "\nthread_key: "@ + thread_key@,
{
    let found = preflight.render_text();
    text::concat5(
        found.as_str(),
        "\nreset_performed: ",
        runtime_control::yes_no_label(reset_performed),
        "\nthread_key: ",
        thread_key,
    )
}

fn render_launched(target: LaunchLocalSessionTarget, mode: ExecutionMode) -> (res: String)
    ensures
        res@ == "Launched local hcodex via `"@ + target_name(target) + "` in `"@ + mode.name()
            + "` mode."@,
{
    let label = match target {
        LaunchLocalSessionTarget::New => "new",
        LaunchLocalSessionTarget::ContinueCurrent => "continue_current",
        LaunchLocalSessionTarget::Resume => "resume",
    };
    text::concat5("Launched local hcodex via `", label, "` in `", mode.as_str(), "` mode.")
}

fn render_mode_set(view: &WorkspaceExecutionModeView) -> (res: String)
    ensures
        res@ == "Workspace execution mode is now `"@ + view.workspace_execution_mode.name()
            + "`.\nExisting sessions converge on the next turn or resume.\n\n"@ + text::joined(
            thread_flow::mode_view_lines(*view),
            "\n"@,
        ),
{
    let shown = thread_flow::render_workspace_execution_mode_view(view);
    text::concat4(
        "Workspace execution mode is now `",
        view.workspace_execution_mode.as_str(),
        "`.\nExisting sessions converge on the next turn or resume.\n\n",
        shown.as_str(),
    )
}

impl CommandNotice {
    /// What the user is told.
    pub open spec fn body(self) -> Seq<char> {
        match self {
            CommandNotice::ControlConsole => {
                "Control console.\nUse /add_workspace <absolute-path> for the workspace-first flow."@
            },
            CommandNotice::WorkspaceConsole => {
                "Workspace thread.\nUse /start_fresh_session, /repair_session_binding, /archive_workspace, /workspace_info, or /rename_workspace here."@
            },
            CommandNotice::WrongPlace { command } => place_text(command),
            CommandNotice::AddUsage => "Usage: /add_workspace <absolute-path>"@,
            CommandNotice::AddBlocked { preflight } => text::or_text(
                preflight.reason(),
                ""@,
            ) + "\n\n"@ + text::joined(preflight.lines(), "\n"@),
            CommandNotice::Added { preflight, reset_performed, thread_key } => text::joined(
                preflight.lines(),
                "\n"@,
            ) + "\nreset_performed: "@ + runtime_control::answer(reset_performed)
                + "\nthread_key: "@ + thread_key@,
            CommandNotice::Archived => "This workspace is archived."@,
            CommandNotice::NeverBound => telegram_runtime::unbound_hint(),
            CommandNotice::NotBound => "This workspace thread is not bound yet."@,
            CommandNotice::Unusable { state, session } => {
                telegram_runtime::state_hint(state, repository::opt_binding(session))
            },
            CommandNotice::Busy { busy } => busy_copy::busy_command_text(busy),
            CommandNotice::FreshSession => "Started a fresh Codex session for this workspace."@,
            CommandNotice::FreshFailed { reason } => "New session failed: "@ + reason@,
            CommandNotice::Repaired => {
                "Workspace runtime restarted and the saved Codex session was resumed and verified."@
            },
            CommandNotice::NotRepaired => {
                "Workspace runtime restarted, but the saved Codex session still could not be resumed and verified. Use /start_fresh_session to start fresh or /repair_session_binding to retry."@
            },
            CommandNotice::Info { info } => text::joined(info.lines(), "\n"@),
            CommandNotice::LaunchUsage { config, refused } => {
                text::joined(thread_flow::launch_usage_lines(config), "\n"@)
            },
            CommandNotice::LauncherMissing => "Managed hcodex is unavailable for this workspace."@,
            CommandNotice::Launched { target, mode } => {
                "Launched local hcodex via `"@ + target_name(target) + "` in `"@ + mode.name() + "` mode."@
            },
            CommandNotice::ModeView { view, refused } => {
                text::joined(thread_flow::mode_view_lines(view), "\n"@)
            },
            CommandNotice::ModeSet { view } => "Workspace execution mode is now `"@
                + view.workspace_execution_mode.name()
                + "`.\nExisting sessions converge on the next turn or resume.\n\n"@ + text::joined(
                thread_flow::mode_view_lines(view),
                "\n"@,
            ),
            CommandNotice::SessionList { session, summaries } => if summaries@.len() == 0 {
                "No working sessions recorded yet."@
            } else {
                text::joined(
                    thread_flow::summary_lines(
                        text::opt_view(session.current_codex_thread_id),
                        summaries@,
                    ),
                    "\n"@,
                )
            },
            CommandNotice::SessionLogUsage => "Usage: /session_log <session_id>"@,
            CommandNotice::SessionMissing { session_id } => {
                "Session `"@ + session_id@ + "` was not found for this workspace."@
            },
            CommandNotice::SessionRecords { session_id, records } => if records@.len() == 0 {
                "No records found for session `"@ + session_id@ + "`."@
            } else {
                text::joined(thread_flow::record_lines(session_id@, records@), "\n"@)
            },
            CommandNotice::StopFailed { reason } => reason@,
            CommandNotice::StopStarted { busy } => thread_flow::stop_started_text(busy),
            CommandNotice::StopRequested { session_id, state } => {
                thread_flow::stop_action_text(session_id@, state)
            },
            CommandNotice::RenameFailed => {
                "Codex session is unavailable. Use /repair_session_binding or /start_fresh_session."@
            },
            CommandNotice::Renamed { response } => {
                "Workspace renamed: "@ + text::trimmed(response@)
            },
            CommandNotice::ModeIsNow { mode } => {
                "Collaboration mode is now `"@ + mode.name() + "`."@
            },
        }
    }

    /// What the user is told.
    pub fn to_text(&self) -> (res: String)
        ensures
            res@ == self.body(),
    {
        match self {
            CommandNotice::ControlConsole => {
                "Control console.\nUse /add_workspace <absolute-path> for the workspace-first flow.".to_owned()
            },
            CommandNotice::WorkspaceConsole => {
                "Workspace thread.\nUse /start_fresh_session, /repair_session_binding, /archive_workspace, /workspace_info, or /rename_workspace here.".to_owned()
            },
            CommandNotice::WrongPlace { command } => render_place(*command),
            CommandNotice::AddUsage => "Usage: /add_workspace <absolute-path>".to_owned(),
            CommandNotice::AddBlocked { preflight } => render_blocked(preflight),
            CommandNotice::Added { preflight, reset_performed, thread_key } => {
                render_added(preflight, *reset_performed, thread_key.as_str())
            },
            CommandNotice::Archived => "This workspace is archived.".to_owned(),
            CommandNotice::NeverBound => {
                "This workspace thread is not bound yet. Archive it and re-add the workspace from the control chat with /add_workspace <absolute-path>.".to_owned()
            },
            CommandNotice::NotBound => "This workspace thread is not bound yet.".to_owned(),
            CommandNotice::Unusable { state, session } => {
                telegram_runtime::hint_text(*state, session)
            },
            CommandNotice::Busy { busy } => busy_copy::busy_command_message(busy),
            CommandNotice::FreshSession => {
                "Started a fresh Codex session for this workspace.".to_owned()
            },
            CommandNotice::FreshFailed { reason } => {
                text::concat2("New session failed: ", reason.as_str())
            },
            CommandNotice::Repaired => {
                "Workspace runtime restarted and the saved Codex session was resumed and verified.".to_owned()
            },
            CommandNotice::NotRepaired => {
                "Workspace runtime restarted, but the saved Codex session still could not be resumed and verified. Use /start_fresh_session to start fresh or /repair_session_binding to retry.".to_owned()
            },
            CommandNotice::Info { info } => thread_flow::render_thread_info(info),
            CommandNotice::LaunchUsage { config, refused } => {
                thread_flow::render_launch_usage(config)
            },
            CommandNotice::LauncherMissing => {
                "Managed hcodex is unavailable for this workspace.".to_owned()
            },
            CommandNotice::Launched { target, mode } => render_launched(*target, *mode),
            CommandNotice::ModeView { view, refused } => {
                thread_flow::render_workspace_execution_mode_view(view)
            },
            CommandNotice::ModeSet { view } => render_mode_set(view),
            CommandNotice::SessionList { session, summaries } => {
                thread_flow::render_working_sessions(session, summaries)
            },
            CommandNotice::SessionLogUsage => "Usage: /session_log <session_id>".to_owned(),
            CommandNotice::SessionMissing { session_id } => {
                text::concat3("Session `", session_id.as_str(), "` was not found for this workspace.")
            },
            CommandNotice::SessionRecords { session_id, records } => {
                thread_flow::render_working_session_records(session_id.as_str(), records)
            },
            CommandNotice::StopFailed { reason } => reason.clone(),
            CommandNotice::StopStarted { busy } => thread_flow::render_stop_started_message(busy),
            CommandNotice::StopRequested { session_id, state } => {
                thread_flow::render_stop_action_message(session_id.as_str(), *state)
            },
            CommandNotice::RenameFailed => {
                "Codex session is unavailable. Use /repair_session_binding or /start_fresh_session.".to_owned()
            },
            CommandNotice::Renamed { response } => {
                text::concat2("Workspace renamed: ", text::trim(response.as_str()))
            },
            CommandNotice::ModeIsNow { mode } => {
                text::concat3("Collaboration mode is now `", mode.as_str(), "`.")
            },
        }
    }

    /// Whether the user is warned.
    pub open spec fn warns(self) -> bool {
        match self {
            CommandNotice::FreshFailed { .. } => true,
            CommandNotice::NotRepaired => true,
            CommandNotice::LaunchUsage { refused, .. } => refused,
            CommandNotice::LauncherMissing => true,
            CommandNotice::ModeView { refused, .. } => refused,
            CommandNotice::SessionMissing { .. } => true,
            CommandNotice::StopFailed { .. } => true,
            CommandNotice::RenameFailed => true,
            _ => false,
        }
    }

    /// Whether the user is warned.
    pub fn is_warning(&self) -> (res: bool)
        ensures
            res == self.warns(),
    {
        match self {
            CommandNotice::FreshFailed { .. } => true,
            CommandNotice::NotRepaired => true,
            CommandNotice::LaunchUsage { refused, .. } => *refused,
            CommandNotice::LauncherMissing => true,
            CommandNotice::ModeView { refused, .. } => *refused,
            CommandNotice::SessionMissing { .. } => true,
            CommandNotice::StopFailed { .. } => true,
            CommandNotice::RenameFailed => true,
            _ => false,
        }
    }
}

/// Who asks for an action, in words.
pub fn control_origin(command: Command) -> (res: &'static str)
    ensures
        res@ == match command {
            Command::NewSession => "telegram /start_fresh_session"@,
            Command::StartFreshSession => "telegram /start_fresh_session"@,
            Command::RepairSession => "telegram /repair_session_binding"@,
            Command::RepairSessionBinding => "telegram /repair_session_binding"@,
            Command::LaunchLocalSession => "telegram /launch_local_session"@,
            Command::SetWorkspaceExecutionMode => "telegram /set_workspace_execution_mode"@,
            Command::Stop => "telegram /stop"@,
            Command::PlanMode => "telegram collaboration_mode"@,
            Command::DefaultMode => "telegram collaboration_mode"@,
            Command::AddWorkspace => "telegram /add_workspace"@,
            _ => "telegram"@,
        },
{
    match command {
        Command::NewSession => "telegram /start_fresh_session",
        Command::StartFreshSession => "telegram /start_fresh_session",
        Command::RepairSession => "telegram /repair_session_binding",
        Command::RepairSessionBinding => "telegram /repair_session_binding",
        Command::LaunchLocalSession => "telegram /launch_local_session",
        Command::SetWorkspaceExecutionMode => "telegram /set_workspace_execution_mode",
        Command::Stop => "telegram /stop",
        Command::PlanMode => "telegram collaboration_mode",
        Command::DefaultMode => "telegram collaboration_mode",
        Command::AddWorkspace => "telegram /add_workspace",
        _ => "telegram",
    }
}

/// The title that a session came up with.
pub fn generated_title(response: &str) -> (res: String)
    ensures
        res@ == text::trimmed(response@),
{
    text::trim(response).to_owned()
}

/// What is put on record about a title.
pub fn generated_title_log(response: &str) -> (res: String)
    ensures
        res@ == "Generated title: "@ + text::trimmed(response@),
{
    text::concat2("Generated title: ", text::trim(response))
}

/// How far a command has come.
#[derive(Debug)]
pub enum CommandStage {
    LoggingStart,
    // Adding a workspace.
    Resolving,
    Preflighting { path: String },
    CreatingTopic { path: String, preflight: WorkspaceAddPreflight },
    CreatingThread { path: String, preflight: WorkspaceAddPreflight },
    Resetting { path: String, preflight: WorkspaceAddPreflight },
    Binding { preflight: WorkspaceAddPreflight, reset_performed: bool },
    Notifying { preflight: WorkspaceAddPreflight, reset_performed: bool, thread_key: String },
    DroppingTopic { reason: String },
    DroppingThread { reason: String },
    // What needs to know the thread first.
    Loading { input: CommandInput },
    LoadingRecord { command: Command },
    StartingFresh,
    BreakingFresh { reason: String },
    Repairing,
    LoadingInfo,
    ReadingLaunch { argument: Option<String>, target: Option<LaunchCommandTarget> },
    Launching { target: LaunchLocalSessionTarget, mode: ExecutionMode },
    ReadingMode { change: bool, mode: Option<ExecutionMode> },
    SettingMode,
    ReadingSessions { session: SessionBinding },
    ReadingRecords { session_id: String },
    Stopping { busy: Option<SessionCurrentStatus>, session: Option<SessionBinding> },
    Watching { notice: CommandNotice },
    // Renaming a workspace.
    PreparingRename { target: TurnTarget },
    OpeningRename { target: TurnTarget },
    RecordingRename { target: TurnTarget },
    Generating { target: TurnTarget },
    RecordingRenameFailure { reason: String },
    BreakingRename,
    VerifyingRename { target: TurnTarget, response: String },
    RecordingRenamed { response: String },
    Titling { response: String },
    LoggingTitle { response: String },
    RetitlingRenamed { response: String },
    DeletingTopic,
    Archiving,
    LoggingArchive,
    ChangingMode { mode: CollaborationMode },
    FindingActive { mode: CollaborationMode },
    // The end of most commands.
    Replying { retitle: bool },
    Retitling,
    Last,
    Finished,
}

/// What came of a step.
#[derive(Debug)]
pub enum CommandEvent {
    Done,
    Failed(String),
    /// What is known of the thread.
    Thread(ThreadFacts),
    /// The workspace that the argument names.
    Path(String),
    Preflight(WorkspaceAddPreflight),
    /// Whether there was anything to clear away.
    Reset { performed: bool },
    Bound { thread_key: String },
    Controlled(RuntimeControlActionResult),
    Info(ThreadInfo),
    LaunchConfig(HcodexLaunchConfigView),
    ModeView(WorkspaceExecutionModeView),
    Summaries(Vec<WorkingSessionSummaryView>),
    Records(Option<Vec<WorkingSessionRecordView>>),
    /// What the session answered that was asked for a title.
    Title(String),
    /// Whether the thread is still active.
    Active(bool),
}

/// What is to be done next.
#[derive(Debug)]
pub enum CommandStep {
    /// Send a notice to where the command came from.
    Reply { notice: CommandNotice },
    /// Put on record that the control chat was begun.
    LogStart,
    ResolvePath { argument: String },
    Preflight { path: String },
    CreateTopic { path: String },
    CreateThread,
    ResetSurface { path: String },
    BindWorkspace { path: String },
    NotifyBound,
    /// Find the thread, and what is known of it.
    LoadThread,
    /// Find the thread.
    LoadRecord,
    RunControl { request: RuntimeControlActionRequest },
    MarkBroken { reason: String },
    LoadInfo,
    ReadLaunchConfig { session: SessionBinding },
    ReadModeView { session: SessionBinding },
    ReadSummaries,
    ReadRecords { session_id: String },
    /// End a turn that does not end by itself.
    Watch { workspace: String, session_id: String, turn_id: String },
    /// Make sure that the runtime of the workspace runs.
    PrepareRuntime { workspace: String },
    OpenWorkspace { workspace: String },
    /// Put on record that a session is asked for a title.
    RecordStart { target: TurnTarget },
    /// Ask the session for a title.
    GenerateTitle { target: TurnTarget },
    RecordFailure { target: TurnTarget },
    MarkVerified,
    RecordEnd { target: TurnTarget, response: String },
    SetTitle { response: String },
    LogTitle { response: String },
    DeleteTopic,
    Archive,
    LogArchive,
    FindActive,
    Retitle,
    /// Show the first page of archived threads.
    ShowRestorePage,
    Finish { outcome: Result<(), CommandError> },
}

/// A notice that a command ends with.
pub open spec fn command_told(notice: CommandNotice) -> (CommandStage, CommandStep) {
    (CommandStage::Replying { retitle: false }, CommandStep::Reply { notice })
}

/// A notice behind which the topic gets its title anew.
pub open spec fn command_told_anew(notice: CommandNotice) -> (CommandStage, CommandStep) {
    (CommandStage::Replying { retitle: true }, CommandStep::Reply { notice })
}

fn tell(notice: CommandNotice) -> (res: (CommandStage, CommandStep))
    ensures
        res == command_told(notice),
{
    (CommandStage::Replying { retitle: false }, CommandStep::Reply { notice })
}

fn tell_anew(notice: CommandNotice) -> (res: (CommandStage, CommandStep))
    ensures
        res == command_told_anew(notice),
{
    (CommandStage::Replying { retitle: true }, CommandStep::Reply { notice })
}

/// Whether a command belongs into the control chat.
pub open spec fn is_for_control_chat(command: Command) -> bool {
    command == Command::AddWorkspace || command == Command::RestoreWorkspace
}

/// The first step of a command.
pub open spec fn command_start(input: CommandInput) -> (CommandStage, CommandStep) {
    if input.command == Command::Start {
        if input.in_control_chat {
            (CommandStage::LoggingStart, CommandStep::LogStart)
        } else {
            command_told(CommandNotice::WorkspaceConsole)
        }
    } else if is_for_control_chat(input.command) != input.in_control_chat {
        command_told(CommandNotice::WrongPlace { command: input.command })
    } else if input.command == Command::AddWorkspace {
        match input.argument {
            Some(argument) => (CommandStage::Resolving, CommandStep::ResolvePath { argument }),
            None => command_told(CommandNotice::AddUsage),
        }
    } else if input.command == Command::RestoreWorkspace {
        (CommandStage::Last, CommandStep::ShowRestorePage)
    } else if !input.in_thread {
        command_ended(Err(CommandError::MissingThreadId))
    } else {
        match input.command {
            Command::WorkspaceInfo => (CommandStage::LoadingInfo, CommandStep::LoadInfo),
            Command::ArchiveWorkspace => (
                CommandStage::LoadingRecord { command: input.command },
                CommandStep::LoadRecord,
            ),
            Command::PlanMode => (
                CommandStage::LoadingRecord { command: input.command },
                CommandStep::LoadRecord,
            ),
            Command::DefaultMode => (
                CommandStage::LoadingRecord { command: input.command },
                CommandStep::LoadRecord,
            ),
            _ => (CommandStage::Loading { input }, CommandStep::LoadThread),
        }
    }
}

/// The first step of a command.
pub fn begin_command(input: CommandInput) -> (res: (CommandStage, CommandStep))
    ensures
        res == command_start(input),
{
    if input.command == Command::Start {
        return if input.in_control_chat {
            (CommandStage::LoggingStart, CommandStep::LogStart)
        } else {
            tell(CommandNotice::WorkspaceConsole)
        };
    }
    let for_control_chat = input.command == Command::AddWorkspace || input.command
        == Command::RestoreWorkspace;
    if for_control_chat != input.in_control_chat {
        return tell(CommandNotice::WrongPlace { command: input.command });
    }
    if input.command == Command::AddWorkspace {
        return match input.argument {
            Some(argument) => (CommandStage::Resolving, CommandStep::ResolvePath { argument }),
            None => tell(CommandNotice::AddUsage),
        };
    }
    if input.command == Command::RestoreWorkspace {
        return (CommandStage::Last, CommandStep::ShowRestorePage);
    }
    if !input.in_thread {
        return end_command(Err(CommandError::MissingThreadId));
    }
    match input.command {
        Command::WorkspaceInfo => (CommandStage::LoadingInfo, CommandStep::LoadInfo),
        Command::ArchiveWorkspace => (
            CommandStage::LoadingRecord { command: Command::ArchiveWorkspace },
            CommandStep::LoadRecord,
        ),
        Command::PlanMode => (
            CommandStage::LoadingRecord { command: Command::PlanMode },
            CommandStep::LoadRecord,
        ),
        Command::DefaultMode => (
            CommandStage::LoadingRecord { command: Command::DefaultMode },
            CommandStep::LoadRecord,
        ),
        _ => (CommandStage::Loading { input }, CommandStep::LoadThread),
    }
}

/// What follows for a command that works on a binding, from what is known of the thread.
pub open spec fn command_bound(input: CommandInput, session: SessionBinding) -> (
    CommandStage,
    CommandStep,
) {
    match input.command {
        Command::LaunchLocalSession => (
            CommandStage::ReadingLaunch { argument: input.argument, target: input.launch_target },
            CommandStep::ReadLaunchConfig { session },
        ),
        Command::GetWorkspaceExecutionMode => (
            CommandStage::ReadingMode { change: false, mode: None },
            CommandStep::ReadModeView { session },
        ),
        Command::SetWorkspaceExecutionMode => (
            CommandStage::ReadingMode { change: true, mode: input.execution_mode },
            CommandStep::ReadModeView { session },
        ),
        Command::Sessions => (
            CommandStage::ReadingSessions { session },
            CommandStep::ReadSummaries,
        ),
        Command::SessionLog => match input.argument {
            Some(session_id) => (
                CommandStage::ReadingRecords { session_id },
                CommandStep::ReadRecords { session_id },
            ),
            None => command_told(CommandNotice::SessionLogUsage),
        },
        _ => command_ended(Err(CommandError::OutOfTurn)),
    }
}

fn on_bound(input: CommandInput, session: SessionBinding) -> (res: (CommandStage, CommandStep))
    ensures
        res == command_bound(input, session),
{
    match input.command {
        Command::LaunchLocalSession => (
            CommandStage::ReadingLaunch { argument: input.argument, target: input.launch_target },
            CommandStep::ReadLaunchConfig { session },
        ),
        Command::GetWorkspaceExecutionMode => (
            CommandStage::ReadingMode { change: false, mode: None },
            CommandStep::ReadModeView { session },
        ),
        Command::SetWorkspaceExecutionMode => (
            CommandStage::ReadingMode { change: true, mode: input.execution_mode },
            CommandStep::ReadModeView { session },
        ),
        Command::Sessions => (
            CommandStage::ReadingSessions { session },
            CommandStep::ReadSummaries,
        ),
        Command::SessionLog => match input.argument {
            Some(session_id) => (
                CommandStage::ReadingRecords { session_id: session_id.clone() },
                CommandStep::ReadRecords { session_id },
            ),
            None => tell(CommandNotice::SessionLogUsage),
        },
        _ => end_command(Err(CommandError::OutOfTurn)),
    }
}

/// What follows for a command that starts a fresh session: the thread must be bound and idle.
pub open spec fn command_fresh(facts: ThreadFacts) -> (CommandStage, CommandStep) {
    if facts.session is None {
        command_told(CommandNotice::NeverBound)
    } else {
        match facts.busy {
            Some(busy) => command_told(CommandNotice::Busy { busy }),
            None => (
                CommandStage::StartingFresh,
                CommandStep::RunControl { request: RuntimeControlActionRequest::StartFreshSession },
            ),
        }
    }
}

fn on_fresh(facts: ThreadFacts) -> (res: (CommandStage, CommandStep))
    ensures
        res == command_fresh(facts),
{
    if facts.session.is_none() {
        return tell(CommandNotice::NeverBound);
    }
    match facts.busy {
        Some(busy) => tell(CommandNotice::Busy { busy }),
        None => (
            CommandStage::StartingFresh,
            CommandStep::RunControl { request: RuntimeControlActionRequest::StartFreshSession },
        ),
    }
}

/// What follows for a command that repairs the binding: there must be a session to repair, and
/// the thread must be idle.
pub open spec fn command_repair(facts: ThreadFacts) -> (CommandStage, CommandStep) {
    if runtime_control::bound_session(repository::opt_binding(facts.session)) is None {
        command_told(CommandNotice::Unusable { state: facts.state, session: facts.session })
    } else {
        match facts.busy {
            Some(busy) => command_told(CommandNotice::Busy { busy }),
            None => (
                CommandStage::Repairing,
                CommandStep::RunControl {
                    request: RuntimeControlActionRequest::RepairSessionBinding,
                },
            ),
        }
    }
}

fn on_repair(facts: ThreadFacts) -> (res: (CommandStage, CommandStep))
    ensures
        res == command_repair(facts),
{
    let bound = match &facts.session {
        Some(session) => runtime_control::current_bound_session_id(Some(session)).is_some(),
        None => runtime_control::current_bound_session_id(None).is_some(),
    };
    if !bound {
        return tell(CommandNotice::Unusable { state: facts.state, session: facts.session });
    }
    match facts.busy {
        Some(busy) => tell(CommandNotice::Busy { busy }),
        None => (
            CommandStage::Repairing,
            CommandStep::RunControl { request: RuntimeControlActionRequest::RepairSessionBinding },
        ),
    }
}

/// What follows for a command that renames the workspace: its session must be usable, and the
/// thread must be idle. The usable session is the one that is asked for the title.
pub open spec fn command_rename(facts: ThreadFacts) -> (CommandStage, CommandStep) {
    if facts.usable() is None {
        command_told(CommandNotice::Unusable { state: facts.state, session: facts.session })
    } else {
        match facts.busy {
            Some(busy) => command_told(CommandNotice::Busy { busy }),
            None => match facts.target() {
                Some(target) => (
                    CommandStage::PreparingRename { target },
                    CommandStep::PrepareRuntime { workspace: target.workspace },
                ),
                None => command_ended(Err(CommandError::MissingWorkspace)),
            },
        }
    }
}

fn on_rename(facts: ThreadFacts) -> (res: (CommandStage, CommandStep))
    ensures
        res == command_rename(facts),
{
    if !facts.is_usable() {
        return tell(CommandNotice::Unusable { state: facts.state, session: facts.session });
    }
    let target = facts.turn_target();
    match facts.busy {
        Some(busy) => tell(CommandNotice::Busy { busy }),
        None => match target {
            Some(target) => {
                let workspace = target.workspace.clone();
                (
                    CommandStage::PreparingRename { target },
                    CommandStep::PrepareRuntime { workspace },
                )
            },
            None => end_command(Err(CommandError::MissingWorkspace)),
        },
    }
}

/// What follows from what is known of the thread: nothing is done in an archived workspace.
pub open spec fn command_loaded(input: CommandInput, facts: ThreadFacts) -> (
    CommandStage,
    CommandStep,
) {
    if facts.state.lifecycle_status == LifecycleStatus::Archived {
        command_told(CommandNotice::Archived)
    } else {
        match input.command {
            Command::NewSession => command_fresh(facts),
            Command::StartFreshSession => command_fresh(facts),
            Command::RepairSession => command_repair(facts),
            Command::RepairSessionBinding => command_repair(facts),
            Command::RenameWorkspace => command_rename(facts),
            Command::Stop => (
                CommandStage::Stopping { busy: facts.busy, session: facts.session },
                CommandStep::RunControl {
                    request: RuntimeControlActionRequest::InterruptRunningTurn,
                },
            ),
            _ => match facts.session {
                Some(session) => command_bound(input, session),
                None => command_told(CommandNotice::NotBound),
            },
        }
    }
}

fn on_loaded(input: CommandInput, facts: ThreadFacts) -> (res: (CommandStage, CommandStep))
    ensures
        res == command_loaded(input, facts),
{
    if facts.state.is_archived() {
        return tell(CommandNotice::Archived);
    }
    match input.command {
        Command::NewSession => on_fresh(facts),
        Command::StartFreshSession => on_fresh(facts),
        Command::RepairSession => on_repair(facts),
        Command::RepairSessionBinding => on_repair(facts),
        Command::RenameWorkspace => on_rename(facts),
        Command::Stop => (
            CommandStage::Stopping { busy: facts.busy, session: facts.session },
            CommandStep::RunControl { request: RuntimeControlActionRequest::InterruptRunningTurn },
        ),
        _ => match facts.session {
            Some(session) => on_bound(input, session),
            None => tell(CommandNotice::NotBound),
        },
    }
}

/// What follows once the thread is found: its topic goes before it is archived, and its mode is
/// changed.
pub open spec fn command_recorded(command: Command) -> (CommandStage, CommandStep) {
    match command {
        Command::ArchiveWorkspace => (CommandStage::DeletingTopic, CommandStep::DeleteTopic),
        Command::PlanMode => (
            CommandStage::ChangingMode { mode: CollaborationMode::Plan },
            CommandStep::RunControl {
                request: RuntimeControlActionRequest::SetThreadCollaborationMode {
                    mode: CollaborationMode::Plan,
                },
            },
        ),
        Command::DefaultMode => (
            CommandStage::ChangingMode { mode: CollaborationMode::Default },
            CommandStep::RunControl {
                request: RuntimeControlActionRequest::SetThreadCollaborationMode {
                    mode: CollaborationMode::Default,
                },
            },
        ),
        _ => command_ended(Err(CommandError::OutOfTurn)),
    }
}

fn on_recorded(command: Command) -> (res: (CommandStage, CommandStep))
    ensures
        res == command_recorded(command),
{
    match command {
        Command::ArchiveWorkspace => (CommandStage::DeletingTopic, CommandStep::DeleteTopic),
        Command::PlanMode => (
            CommandStage::ChangingMode { mode: CollaborationMode::Plan },
            CommandStep::RunControl {
                request: RuntimeControlActionRequest::SetThreadCollaborationMode {
                    mode: CollaborationMode::Plan,
                },
            },
        ),
        Command::DefaultMode => (
            CommandStage::ChangingMode { mode: CollaborationMode::Default },
            CommandStep::RunControl {
                request: RuntimeControlActionRequest::SetThreadCollaborationMode {
                    mode: CollaborationMode::Default,
                },
            },
        ),
        _ => end_command(Err(CommandError::OutOfTurn)),
    }
}

/// What follows from how a local client can be launched.
pub open spec fn command_launch(
    argument: Option<String>,
    target: Option<LaunchCommandTarget>,
    config: HcodexLaunchConfigView,
) -> (CommandStage, CommandStep) {
    match target {
        None => command_told(CommandNotice::LaunchUsage { config, refused: argument is Some }),
        Some(target) => if !config.hcodex_available {
            command_told(CommandNotice::LauncherMissing)
        } else {
            let (launched, session_id) = match target {
                LaunchCommandTarget::New => (LaunchLocalSessionTarget::New, None),
                LaunchCommandTarget::Current => (LaunchLocalSessionTarget::ContinueCurrent, None),
                LaunchCommandTarget::Resume(session_id) => (
                    LaunchLocalSessionTarget::Resume,
                    Some(session_id),
                ),
            };
            (
                CommandStage::Launching { target: launched, mode: config.workspace_execution_mode },
                CommandStep::RunControl {
                    request: RuntimeControlActionRequest::LaunchLocalSession {
                        target: launched,
                        session_id,
                    },
                },
            )
        },
    }
}

fn on_launch_config(
    argument: Option<String>,
    target: Option<LaunchCommandTarget>,
    config: HcodexLaunchConfigView,
) -> (res: (CommandStage, CommandStep))
    ensures
        res == command_launch(argument, target, config),
{
    match target {
        None => {
            let refused = argument.is_some();
            tell(CommandNotice::LaunchUsage { config, refused })
        },
        Some(target) => {
            if !config.hcodex_available {
                return tell(CommandNotice::LauncherMissing);
            }
            let (launched, session_id) = match target {
                LaunchCommandTarget::New => (LaunchLocalSessionTarget::New, None),
                LaunchCommandTarget::Current => (LaunchLocalSessionTarget::ContinueCurrent, None),
                LaunchCommandTarget::Resume(session_id) => (
                    LaunchLocalSessionTarget::Resume,
                    Some(session_id),
                ),
            };
            (
                CommandStage::Launching { target: launched, mode: config.workspace_execution_mode },
                CommandStep::RunControl {
                    request: RuntimeControlActionRequest::LaunchLocalSession {
                        target: launched,
                        session_id,
                    },
                },
            )
        },
    }
}

/// What follows from the mode of the workspace: it is shown, or changed to a mode that there is.
pub open spec fn command_mode_view(
    change: bool,
    mode: Option<ExecutionMode>,
    view: WorkspaceExecutionModeView,
) -> (CommandStage, CommandStep) {
    match (change, mode) {
        (true, Some(execution_mode)) => (
            CommandStage::SettingMode,
            CommandStep::RunControl {
                request: RuntimeControlActionRequest::SetWorkspaceExecutionMode { execution_mode },
            },
        ),
        _ => command_told(CommandNotice::ModeView { view, refused: change }),
    }
}

fn on_mode_view(
    change: bool,
    mode: Option<ExecutionMode>,
    view: WorkspaceExecutionModeView,
) -> (res: (CommandStage, CommandStep))
    ensures
        res == command_mode_view(change, mode, view),
{
    match (change, mode) {
        (true, Some(execution_mode)) => (
            CommandStage::SettingMode,
            CommandStep::RunControl {
                request: RuntimeControlActionRequest::SetWorkspaceExecutionMode { execution_mode },
            },
        ),
        _ => tell(CommandNotice::ModeView { view, refused: change }),
    }
}

/// What a user is told of a mode that was set.
pub open spec fn command_mode_set(result: RuntimeControlActionResult) -> (
    CommandStage,
    CommandStep,
) {
    match result {
        RuntimeControlActionResult::SetWorkspaceExecutionMode {
            thread_key,
            workspace_cwd,
            workspace_execution_mode,
            current_execution_mode,
            current_approval_policy,
            current_sandbox_policy,
            mode_drift,
        } => command_told(
            CommandNotice::ModeSet {
                view: WorkspaceExecutionModeView {
                    thread_key,
                    workspace_cwd,
                    workspace_execution_mode,
                    current_execution_mode,
                    current_approval_policy,
                    current_sandbox_policy,
                    mode_drift,
                },
            },
        ),
        _ => command_ended(
            Err(CommandError::UnexpectedResult { action: ExpectedAction::ExecutionMode }),
        ),
    }
}

fn on_mode_set(result: RuntimeControlActionResult) -> (res: (CommandStage, CommandStep))
    ensures
        res == command_mode_set(result),
{
    match result {
        RuntimeControlActionResult::SetWorkspaceExecutionMode {
            thread_key,
            workspace_cwd,
            workspace_execution_mode,
            current_execution_mode,
            current_approval_policy,
            current_sandbox_policy,
            mode_drift,
        } => tell(
            CommandNotice::ModeSet {
                view: WorkspaceExecutionModeView {
                    thread_key,
                    workspace_cwd,
                    workspace_execution_mode,
                    current_execution_mode,
                    current_approval_policy,
                    current_sandbox_policy,
                    mode_drift,
                },
            },
        ),
        _ => end_command(
            Err(CommandError::UnexpectedResult { action: ExpectedAction::ExecutionMode }),
        ),
    }
}

/// What a user is told whose turn was asked to end.
pub open spec fn stop_notice(
    busy: Option<SessionCurrentStatus>,
    session_id: String,
    state: InterruptRunningTurnState,
) -> CommandNotice {
    match busy {
        Some(busy) => CommandNotice::StopStarted { busy },
        None => CommandNotice::StopRequested { session_id, state },
    }
}

/// What follows once a turn was asked to end: a turn that was asked for the first time is watched.
pub open spec fn command_stopped(
    busy: Option<SessionCurrentStatus>,
    session: Option<SessionBinding>,
    result: RuntimeControlActionResult,
) -> (CommandStage, CommandStep) {
    match result {
        RuntimeControlActionResult::InterruptRunningTurn { thread_key, session_id, turn_id, state } => {
            match (session, turn_id) {
                (Some(session), Some(turn_id)) => if state == InterruptRunningTurnState::Requested {
                    match session.workspace_cwd {
                        Some(workspace) => (
                            CommandStage::Watching { notice: stop_notice(busy, session_id, state) },
                            CommandStep::Watch { workspace, session_id, turn_id },
                        ),
                        None => command_ended(Err(CommandError::MissingWorkspace)),
                    }
                } else {
                    command_told(stop_notice(busy, session_id, state))
                },
                _ => command_told(stop_notice(busy, session_id, state)),
            }
        },
        _ => command_ended(
            Err(CommandError::UnexpectedResult { action: ExpectedAction::Interrupt }),
        ),
    }
}

fn make_stop_notice(
    busy: Option<SessionCurrentStatus>,
    session_id: String,
    state: InterruptRunningTurnState,
) -> (res: CommandNotice)
    ensures
        res == stop_notice(busy, session_id, state),
{
    match busy {
        Some(busy) => CommandNotice::StopStarted { busy },
        None => CommandNotice::StopRequested { session_id, state },
    }
}

fn on_stopped(
    busy: Option<SessionCurrentStatus>,
    session: Option<SessionBinding>,
    result: RuntimeControlActionResult,
) -> (res: (CommandStage, CommandStep))
    ensures
        res == command_stopped(busy, session, result),
{
    match result {
        RuntimeControlActionResult::InterruptRunningTurn { thread_key: _, session_id, turn_id, state } => {
            match (session, turn_id) {
                (Some(session), Some(turn_id)) => {
                    if state == InterruptRunningTurnState::Requested {
                        match session.workspace_cwd {
                            Some(workspace) => (
                                CommandStage::Watching {
                                    notice: make_stop_notice(busy, session_id.clone(), state),
                                },
                                CommandStep::Watch { workspace, session_id, turn_id },
                            ),
                            None => end_command(Err(CommandError::MissingWorkspace)),
                        }
                    } else {
                        tell(make_stop_notice(busy, session_id, state))
                    }
                },
                _ => tell(make_stop_notice(busy, session_id, state)),
            }
        },
        _ => end_command(
            Err(CommandError::UnexpectedResult { action: ExpectedAction::Interrupt }),
        ),
    }
}

/// The end of a command.
pub open spec fn command_ended(outcome: Result<(), CommandError>) -> (CommandStage, CommandStep) {
    (CommandStage::Finished, CommandStep::Finish { outcome })
}

fn end_command(outcome: Result<(), CommandError>) -> (res: (CommandStage, CommandStep))
    ensures
        res == command_ended(outcome),
{
    (CommandStage::Finished, CommandStep::Finish { outcome })
}

/// What follows from an event.
pub open spec fn command_next(stage: CommandStage, event: CommandEvent) -> (CommandStage, CommandStep) {
    match (stage, event) {
        (CommandStage::Finished, _) => command_ended(Err(CommandError::OutOfTurn)),
        (CommandStage::Resetting { path, preflight }, CommandEvent::Failed(reason)) => (
            CommandStage::DroppingTopic { reason },
            CommandStep::DeleteTopic,
        ),
        (CommandStage::Binding { preflight, reset_performed }, CommandEvent::Failed(reason)) => (
            CommandStage::DroppingTopic { reason },
            CommandStep::DeleteTopic,
        ),
        (CommandStage::DroppingTopic { reason }, _) => (
            CommandStage::DroppingThread { reason },
            CommandStep::Archive,
        ),
        (CommandStage::DroppingThread { reason }, _) => command_ended(
            Err(CommandError::Outside(reason)),
        ),
        (CommandStage::Notifying { preflight, reset_performed, thread_key }, _) => command_told(
            CommandNotice::Added { preflight, reset_performed, thread_key },
        ),
        (CommandStage::StartingFresh, CommandEvent::Failed(reason)) => (
            CommandStage::BreakingFresh { reason: reason },
            CommandStep::MarkBroken { reason },
        ),
        (CommandStage::Stopping { busy, session }, CommandEvent::Failed(reason)) => command_told(
            CommandNotice::StopFailed { reason },
        ),
        (CommandStage::Generating { target }, CommandEvent::Failed(reason)) => (
            CommandStage::RecordingRenameFailure { reason },
            CommandStep::RecordFailure { target },
        ),
        (CommandStage::RecordingRenameFailure { reason }, _) => (
            CommandStage::BreakingRename,
            CommandStep::MarkBroken { reason },
        ),
        (CommandStage::RetitlingRenamed { response }, _) => command_told(
            CommandNotice::Renamed { response },
        ),
        (CommandStage::DeletingTopic, _) => (CommandStage::Archiving, CommandStep::Archive),
        (CommandStage::Retitling, _) => command_ended(Ok(())),
        (_, CommandEvent::Failed(reason)) => command_ended(Err(CommandError::Outside(reason))),
        (CommandStage::LoggingStart, CommandEvent::Done) => command_told(
            CommandNotice::ControlConsole,
        ),
        (CommandStage::Resolving, CommandEvent::Path(path)) => (
            CommandStage::Preflighting { path: path },
            CommandStep::Preflight { path },
        ),
        (CommandStage::Preflighting { path }, CommandEvent::Preflight(preflight)) => if preflight.reason() is Some {
            command_told(CommandNotice::AddBlocked { preflight })
        } else {
            (CommandStage::CreatingTopic { path: path, preflight }, CommandStep::CreateTopic { path })
        },
        (CommandStage::CreatingTopic { path, preflight }, CommandEvent::Done) => (
            CommandStage::CreatingThread { path, preflight },
            CommandStep::CreateThread,
        ),
        (CommandStage::CreatingThread { path, preflight }, CommandEvent::Done) => (
            CommandStage::Resetting { path: path, preflight },
            CommandStep::ResetSurface { path },
        ),
        (CommandStage::Resetting { path, preflight }, CommandEvent::Reset { performed }) => (
            CommandStage::Binding { preflight, reset_performed: performed },
            CommandStep::BindWorkspace { path },
        ),
        (
            CommandStage::Binding { preflight, reset_performed },
            CommandEvent::Bound { thread_key },
        ) => (
            CommandStage::Notifying { preflight, reset_performed, thread_key },
            CommandStep::NotifyBound,
        ),
        (CommandStage::Loading { input }, CommandEvent::Thread(facts)) => command_loaded(
            input,
            facts,
        ),
        (CommandStage::LoadingRecord { command }, CommandEvent::Done) => command_recorded(command),
        (CommandStage::StartingFresh, CommandEvent::Controlled(_)) => command_told_anew(
            CommandNotice::FreshSession,
        ),
        (CommandStage::BreakingFresh { reason }, CommandEvent::Done) => command_told(
            CommandNotice::FreshFailed { reason },
        ),
        (
            CommandStage::Repairing,
            CommandEvent::Controlled(
                RuntimeControlActionResult::RepairSessionBinding { verified, .. },
            ),
        ) => if verified {
            command_told_anew(CommandNotice::Repaired)
        } else {
            command_told_anew(CommandNotice::NotRepaired)
        },
        (CommandStage::Repairing, CommandEvent::Controlled(_)) => command_ended(
            Err(CommandError::UnexpectedResult { action: ExpectedAction::Repair }),
        ),
        (CommandStage::LoadingInfo, CommandEvent::Info(info)) => command_told(
            CommandNotice::Info { info },
        ),
        (
            CommandStage::ReadingLaunch { argument, target },
            CommandEvent::LaunchConfig(config),
        ) => command_launch(argument, target, config),
        (CommandStage::Launching { target, mode }, CommandEvent::Controlled(_)) => command_told(
            CommandNotice::Launched { target, mode },
        ),
        (CommandStage::ReadingMode { change, mode }, CommandEvent::ModeView(view)) => command_mode_view(
            change,
            mode,
            view,
        ),
        (CommandStage::SettingMode, CommandEvent::Controlled(result)) => command_mode_set(result),
        (CommandStage::ReadingSessions { session }, CommandEvent::Summaries(summaries)) => command_told(
            CommandNotice::SessionList { session, summaries },
        ),
        (CommandStage::ReadingRecords { session_id }, CommandEvent::Records(Some(records))) => command_told(
            CommandNotice::SessionRecords { session_id, records },
        ),
        (CommandStage::ReadingRecords { session_id }, CommandEvent::Records(None)) => command_told(
            CommandNotice::SessionMissing { session_id },
        ),
        (CommandStage::Stopping { busy, session }, CommandEvent::Controlled(result)) => command_stopped(
            busy,
            session,
            result,
        ),
        (CommandStage::Watching { notice }, CommandEvent::Done) => command_told(notice),
        (CommandStage::PreparingRename { target }, CommandEvent::Done) => (
            CommandStage::OpeningRename { target: target },
            CommandStep::OpenWorkspace { workspace: target.workspace },
        ),
        (CommandStage::OpeningRename { target }, CommandEvent::Done) => (
            CommandStage::RecordingRename { target: target },
            CommandStep::RecordStart { target },
        ),
        (CommandStage::RecordingRename { target }, CommandEvent::Done) => (
            CommandStage::Generating { target: target },
            CommandStep::GenerateTitle { target },
        ),
        (CommandStage::BreakingRename, CommandEvent::Done) => command_told_anew(
            CommandNotice::RenameFailed,
        ),
        (CommandStage::Generating { target }, CommandEvent::Title(response)) => (
            CommandStage::VerifyingRename { target, response },
            CommandStep::MarkVerified,
        ),
        (CommandStage::VerifyingRename { target, response }, CommandEvent::Done) => (
            CommandStage::RecordingRenamed { response: response },
            CommandStep::RecordEnd { target, response },
        ),
        (CommandStage::RecordingRenamed { response }, CommandEvent::Done) => (
            CommandStage::Titling { response: response },
            CommandStep::SetTitle { response },
        ),
        (CommandStage::Titling { response }, CommandEvent::Done) => (
            CommandStage::LoggingTitle { response: response },
            CommandStep::LogTitle { response },
        ),
        (CommandStage::LoggingTitle { response }, CommandEvent::Done) => (
            CommandStage::RetitlingRenamed { response },
            CommandStep::Retitle,
        ),
        (CommandStage::Archiving, CommandEvent::Done) => (
            CommandStage::LoggingArchive,
            CommandStep::LogArchive,
        ),
        (CommandStage::LoggingArchive, CommandEvent::Done) => command_ended(Ok(())),
        (
            CommandStage::ChangingMode { mode },
            CommandEvent::Controlled(
                RuntimeControlActionResult::SetThreadCollaborationMode { mode: returned, .. },
            ),
        ) => if returned == mode {
            (CommandStage::FindingActive { mode }, CommandStep::FindActive)
        } else {
            command_ended(Err(CommandError::WrongMode { returned, wanted: mode }))
        },
        (CommandStage::ChangingMode { mode }, CommandEvent::Controlled(_)) => command_ended(
            Err(CommandError::UnexpectedResult { action: ExpectedAction::CollaborationMode }),
        ),
        (CommandStage::FindingActive { mode }, CommandEvent::Active(active)) => if active {
            command_told_anew(CommandNotice::ModeIsNow { mode })
        } else {
            command_ended(Err(CommandError::NotActive))
        },
        (CommandStage::Replying { retitle }, CommandEvent::Done) => if retitle {
            (CommandStage::Retitling, CommandStep::Retitle)
        } else {
            command_ended(Ok(()))
        },
        (CommandStage::Last, CommandEvent::Done) => command_ended(Ok(())),
        _ => command_ended(Err(CommandError::OutOfTurn)),
    }
}

/// The next step of a command.
pub fn advance_command(stage: CommandStage, event: CommandEvent) -> (res: (CommandStage, CommandStep))
    ensures
        res == command_next(stage, event),
{
    match (stage, event) {
        (CommandStage::Finished, _) => end_command(Err(CommandError::OutOfTurn)),
        (CommandStage::Resetting { path, preflight }, CommandEvent::Failed(reason)) => (
            CommandStage::DroppingTopic { reason },
            CommandStep::DeleteTopic,
        ),
        (CommandStage::Binding { preflight, reset_performed }, CommandEvent::Failed(reason)) => (
            CommandStage::DroppingTopic { reason },
            CommandStep::DeleteTopic,
        ),
        (CommandStage::DroppingTopic { reason }, _) => (
            CommandStage::DroppingThread { reason },
            CommandStep::Archive,
        ),
        (CommandStage::DroppingThread { reason }, _) => end_command(
            Err(CommandError::Outside(reason)),
        ),
        (CommandStage::Notifying { preflight, reset_performed, thread_key }, _) => tell(
            CommandNotice::Added { preflight, reset_performed, thread_key },
        ),
        (CommandStage::StartingFresh, CommandEvent::Failed(reason)) => (
            CommandStage::BreakingFresh { reason: reason.clone() },
            CommandStep::MarkBroken { reason },
        ),
        (CommandStage::Stopping { busy, session }, CommandEvent::Failed(reason)) => tell(
            CommandNotice::StopFailed { reason },
        ),
        (CommandStage::Generating { target }, CommandEvent::Failed(reason)) => (
            CommandStage::RecordingRenameFailure { reason },
            CommandStep::RecordFailure { target },
        ),
        (CommandStage::RecordingRenameFailure { reason }, _) => (
            CommandStage::BreakingRename,
            CommandStep::MarkBroken { reason },
        ),
        (CommandStage::RetitlingRenamed { response }, _) => tell(
            CommandNotice::Renamed { response },
        ),
        (CommandStage::DeletingTopic, _) => (CommandStage::Archiving, CommandStep::Archive),
        (CommandStage::Retitling, _) => end_command(Ok(())),
        (_, CommandEvent::Failed(reason)) => end_command(Err(CommandError::Outside(reason))),
        (CommandStage::LoggingStart, CommandEvent::Done) => tell(CommandNotice::ControlConsole),
        (CommandStage::Resolving, CommandEvent::Path(path)) => (
            CommandStage::Preflighting { path: path.clone() },
            CommandStep::Preflight { path },
        ),
        (CommandStage::Preflighting { path }, CommandEvent::Preflight(preflight)) => if preflight.blocking_reason().is_some() {
            tell(CommandNotice::AddBlocked { preflight })
        } else {
            (CommandStage::CreatingTopic { path: path.clone(), preflight }, CommandStep::CreateTopic { path })
        },
        (CommandStage::CreatingTopic { path, preflight }, CommandEvent::Done) => (
            CommandStage::CreatingThread { path, preflight },
            CommandStep::CreateThread,
        ),
        (CommandStage::CreatingThread { path, preflight }, CommandEvent::Done) => (
            CommandStage::Resetting { path: path.clone(), preflight },
            CommandStep::ResetSurface { path },
        ),
        (CommandStage::Resetting { path, preflight }, CommandEvent::Reset { performed }) => (
            CommandStage::Binding { preflight, reset_performed: performed },
            CommandStep::BindWorkspace { path },
        ),
        (
            CommandStage::Binding { preflight, reset_performed },
            CommandEvent::Bound { thread_key },
        ) => (
            CommandStage::Notifying { preflight, reset_performed, thread_key },
            CommandStep::NotifyBound,
        ),
        (CommandStage::Loading { input }, CommandEvent::Thread(facts)) => on_loaded(input, facts),
        (CommandStage::LoadingRecord { command }, CommandEvent::Done) => on_recorded(command),
        (CommandStage::StartingFresh, CommandEvent::Controlled(_)) => tell_anew(
            CommandNotice::FreshSession,
        ),
        (CommandStage::BreakingFresh { reason }, CommandEvent::Done) => tell(
            CommandNotice::FreshFailed { reason },
        ),
        (
            CommandStage::Repairing,
            CommandEvent::Controlled(
                RuntimeControlActionResult::RepairSessionBinding { verified, .. },
            ),
        ) => if verified {
            tell_anew(CommandNotice::Repaired)
        } else {
            tell_anew(CommandNotice::NotRepaired)
        },
        (CommandStage::Repairing, CommandEvent::Controlled(_)) => end_command(
            Err(CommandError::UnexpectedResult { action: ExpectedAction::Repair }),
        ),
        (CommandStage::LoadingInfo, CommandEvent::Info(info)) => tell(CommandNotice::Info { info }),
        (
            CommandStage::ReadingLaunch { argument, target },
            CommandEvent::LaunchConfig(config),
        ) => on_launch_config(argument, target, config),
        (CommandStage::Launching { target, mode }, CommandEvent::Controlled(_)) => tell(
            CommandNotice::Launched { target, mode },
        ),
        (CommandStage::ReadingMode { change, mode }, CommandEvent::ModeView(view)) => on_mode_view(
            change,
            mode,
            view,
        ),
        (CommandStage::SettingMode, CommandEvent::Controlled(result)) => on_mode_set(result),
        (CommandStage::ReadingSessions { session }, CommandEvent::Summaries(summaries)) => tell(
            CommandNotice::SessionList { session, summaries },
        ),
        (CommandStage::ReadingRecords { session_id }, CommandEvent::Records(Some(records))) => tell(
            CommandNotice::SessionRecords { session_id, records },
        ),
        (CommandStage::ReadingRecords { session_id }, CommandEvent::Records(None)) => tell(
            CommandNotice::SessionMissing { session_id },
        ),
        (CommandStage::Stopping { busy, session }, CommandEvent::Controlled(result)) => on_stopped(
            busy,
            session,
            result,
        ),
        (CommandStage::Watching { notice }, CommandEvent::Done) => tell(notice),
        (CommandStage::PreparingRename { target }, CommandEvent::Done) => (
            CommandStage::OpeningRename { target: target.copy() },
            CommandStep::OpenWorkspace { workspace: target.workspace },
        ),
        (CommandStage::OpeningRename { target }, CommandEvent::Done) => (
            CommandStage::RecordingRename { target: target.copy() },
            CommandStep::RecordStart { target },
        ),
        (CommandStage::RecordingRename { target }, CommandEvent::Done) => (
            CommandStage::Generating { target: target.copy() },
            CommandStep::GenerateTitle { target },
        ),
        (CommandStage::BreakingRename, CommandEvent::Done) => tell_anew(
            CommandNotice::RenameFailed,
        ),
        (CommandStage::Generating { target }, CommandEvent::Title(response)) => (
            CommandStage::VerifyingRename { target, response },
            CommandStep::MarkVerified,
        ),
        (CommandStage::VerifyingRename { target, response }, CommandEvent::Done) => (
            CommandStage::RecordingRenamed { response: response.clone() },
            CommandStep::RecordEnd { target, response },
        ),
        (CommandStage::RecordingRenamed { response }, CommandEvent::Done) => (
            CommandStage::Titling { response: response.clone() },
            CommandStep::SetTitle { response },
        ),
        (CommandStage::Titling { response }, CommandEvent::Done) => (
            CommandStage::LoggingTitle { response: response.clone() },
            CommandStep::LogTitle { response },
        ),
        (CommandStage::LoggingTitle { response }, CommandEvent::Done) => (
            CommandStage::RetitlingRenamed { response },
            CommandStep::Retitle,
        ),
        (CommandStage::Archiving, CommandEvent::Done) => (
            CommandStage::LoggingArchive,
            CommandStep::LogArchive,
        ),
        (CommandStage::LoggingArchive, CommandEvent::Done) => end_command(Ok(())),
        (
            CommandStage::ChangingMode { mode },
            CommandEvent::Controlled(
                RuntimeControlActionResult::SetThreadCollaborationMode { mode: returned, .. },
            ),
        ) => if returned == mode {
            (CommandStage::FindingActive { mode }, CommandStep::FindActive)
        } else {
            end_command(Err(CommandError::WrongMode { returned, wanted: mode }))
        },
        (CommandStage::ChangingMode { mode }, CommandEvent::Controlled(_)) => end_command(
            Err(CommandError::UnexpectedResult { action: ExpectedAction::CollaborationMode }),
        ),
        (CommandStage::FindingActive { mode }, CommandEvent::Active(active)) => if active {
            tell_anew(CommandNotice::ModeIsNow { mode })
        } else {
            end_command(Err(CommandError::NotActive))
        },
        (CommandStage::Replying { retitle }, CommandEvent::Done) => if retitle {
            (CommandStage::Retitling, CommandStep::Retitle)
        } else {
            end_command(Ok(()))
        },
        (CommandStage::Last, CommandEvent::Done) => end_command(Ok(())),
        _ => end_command(Err(CommandError::OutOfTurn)),
    }
}

/// How many steps a command can still take.
pub open spec fn command_steps_left(stage: CommandStage) -> nat {
    match stage {
        CommandStage::LoggingStart => 3,
        CommandStage::Resolving => 11,
        CommandStage::Preflighting { .. } => 10,
        CommandStage::CreatingTopic { .. } => 9,
        CommandStage::CreatingThread { .. } => 8,
        CommandStage::Resetting { .. } => 7,
        CommandStage::Binding { .. } => 6,
        CommandStage::Notifying { .. } => 4,
        CommandStage::DroppingTopic { .. } => 2,
        CommandStage::DroppingThread { .. } => 1,
        CommandStage::Loading { .. } => 13,
        CommandStage::LoadingRecord { .. } => 6,
        CommandStage::StartingFresh => 4,
        CommandStage::BreakingFresh { .. } => 3,
        CommandStage::Repairing => 3,
        CommandStage::LoadingInfo => 3,
        CommandStage::ReadingLaunch { .. } => 4,
        CommandStage::Launching { .. } => 3,
        CommandStage::ReadingMode { .. } => 4,
        CommandStage::SettingMode => 3,
        CommandStage::ReadingSessions { .. } => 3,
        CommandStage::ReadingRecords { .. } => 3,
        CommandStage::Stopping { .. } => 4,
        CommandStage::Watching { .. } => 3,
        CommandStage::PreparingRename { .. } => 12,
        CommandStage::OpeningRename { .. } => 11,
        CommandStage::RecordingRename { .. } => 10,
        CommandStage::Generating { .. } => 9,
        CommandStage::RecordingRenameFailure { .. } => 4,
        CommandStage::BreakingRename => 3,
        CommandStage::VerifyingRename { .. } => 8,
        CommandStage::RecordingRenamed { .. } => 7,
        CommandStage::Titling { .. } => 6,
        CommandStage::LoggingTitle { .. } => 5,
        CommandStage::RetitlingRenamed { .. } => 4,
        CommandStage::DeletingTopic => 3,
        CommandStage::Archiving => 2,
        CommandStage::LoggingArchive => 1,
        CommandStage::ChangingMode { .. } => 4,
        CommandStage::FindingActive { .. } => 3,
        CommandStage::Replying { .. } => 2,
        CommandStage::Retitling => 1,
        CommandStage::Last => 1,
        CommandStage::Finished => 0,
    }
}

/// Whatever comes of its steps, a command ends.
pub proof fn law_command_ends(stage: CommandStage, event: CommandEvent)
    ensures
        command_next(stage, event).1 is Finish <==> command_next(stage, event).0 is Finished,
        stage !is Finished ==> command_steps_left(command_next(stage, event).0) < command_steps_left(stage),
        stage is Finished ==> command_next(stage, event).0 is Finished,
{
}

/// In an archived workspace nothing is done: the user is told so.
pub proof fn law_archived_workspaces_are_left_alone(input: CommandInput, facts: ThreadFacts)
    requires
        facts.state.lifecycle_status == LifecycleStatus::Archived,
    ensures
        command_next(CommandStage::Loading { input }, CommandEvent::Thread(facts)) == command_told(
            CommandNotice::Archived,
        ),
{
}

/// While a turn runs, no session is started, repaired or asked for a title: the user is told that
/// the thread is busy.
pub proof fn law_busy_threads_keep_their_session(input: CommandInput, facts: ThreadFacts)
    requires
        facts.busy is Some,
        input.command == Command::NewSession || input.command == Command::StartFreshSession
            || input.command == Command::RepairSession || input.command
            == Command::RepairSessionBinding || input.command == Command::RenameWorkspace,
    ensures
        command_next(CommandStage::Loading { input }, CommandEvent::Thread(facts)).1 is Reply,
        facts.state.lifecycle_status != LifecycleStatus::Archived && facts.usable() is Some
            ==> command_next(
            CommandStage::Loading { input },
            CommandEvent::Thread(facts),
        ) == command_told(CommandNotice::Busy { busy: facts.busy->0 }),
{
}

/// A command in the wrong place only brings a notice: in the control chat no command reaches a
/// workspace, and outside of it none adds or restores one.
pub proof fn law_misplaced_commands_do_nothing(input: CommandInput)
    requires
        input.command != Command::Start,
        is_for_control_chat(input.command) != input.in_control_chat,
    ensures
        command_start(input) == command_told(CommandNotice::WrongPlace { command: input.command }),
{
}

/// A workspace that is not free is not added: no topic is made for it.
pub proof fn law_bound_workspaces_are_not_added(path: String, preflight: WorkspaceAddPreflight)
    ensures
        command_next(
            CommandStage::Preflighting { path },
            CommandEvent::Preflight(preflight),
        ).1 is CreateTopic <==> preflight.active_threads@.len() == 0
            && preflight.archived_threads@.len() == 0,
{
}

/// Where a workspace cannot be bound behind the making of its topic, the topic and the thread are
/// dropped again, and the command fails for the reason of the failure, whatever comes of the
/// dropping.
pub proof fn law_failed_add_is_undone(
    path: String,
    preflight: WorkspaceAddPreflight,
    reason: String,
    first: CommandEvent,
    second: CommandEvent,
)
    ensures
        ({
            let failed = command_next(
                CommandStage::Resetting { path, preflight },
                CommandEvent::Failed(reason),
            );
            let dropped = command_next(failed.0, first);
            &&& failed.1 is DeleteTopic
            &&& dropped.1 is Archive
            &&& command_next(dropped.0, second) == command_ended(Err(CommandError::Outside(reason)))
        }),
{
}

/// A turn that could not give a title leaves the binding marked as broken.
pub proof fn law_failed_rename_marks_the_binding(
    target: TurnTarget,
    reason: String,
    event: CommandEvent,
)
    ensures
        ({
            let failed = command_next(
                CommandStage::Generating { target },
                CommandEvent::Failed(reason),
            );
            command_next(failed.0, event).1 == (CommandStep::MarkBroken { reason })
        }),
{
}

/// The session that is asked for a title, as long as something is still to be done about it.
pub open spec fn rename_target(stage: CommandStage) -> Option<TurnTarget> {
    match stage {
        CommandStage::PreparingRename { target } => Some(target),
        CommandStage::OpeningRename { target } => Some(target),
        CommandStage::RecordingRename { target } => Some(target),
        CommandStage::Generating { target } => Some(target),
        CommandStage::VerifyingRename { target, .. } => Some(target),
        _ => None,
    }
}

/// The session that is asked for a title is the usable one of the thread, in the workspace of its
/// binding, and what is put on record is about that same session.
pub proof fn law_renames_keep_their_session(
    input: CommandInput,
    facts: ThreadFacts,
    stage: CommandStage,
    event: CommandEvent,
)
    ensures
        command_next(CommandStage::Loading { input }, CommandEvent::Thread(facts)).0
            matches CommandStage::PreparingRename { target } ==> facts.usable() == Some(
            target.session_id@,
        ) && facts.session->0.workspace_cwd == Some(target.workspace),
        rename_target(command_next(stage, event).0) is Some ==> stage is Loading || rename_target(
            command_next(stage, event).0,
        ) == rename_target(stage),
        match command_next(stage, event).1 {
            CommandStep::RecordStart { target } => rename_target(stage) == Some(target),
            CommandStep::GenerateTitle { target } => rename_target(stage) == Some(target),
            CommandStep::RecordFailure { target } => rename_target(stage) == Some(target),
            CommandStep::RecordEnd { target, .. } => rename_target(stage) == Some(target),
            _ => true,
        },
{
}

/// Workspaces are added and restored from the control chat, and everything else that is done with
/// them is done in their threads; `/start` is answered in both. A command in the other place brings
/// a notice that names it.
pub proof fn law_commands_run_where_they_belong(input: CommandInput)
    ensures
        ({
            let first = command_start(input).1;
            let misplaced = CommandStep::Reply {
                notice: CommandNotice::WrongPlace { command: input.command },
            };
            match input.command {
                Command::Start => first == if input.in_control_chat {
                    CommandStep::LogStart
                } else {
                    CommandStep::Reply { notice: CommandNotice::WorkspaceConsole }
                },
                Command::AddWorkspace => first == match (input.in_control_chat, input.argument) {
                    (false, _) => misplaced,
                    (true, Some(argument)) => CommandStep::ResolvePath { argument },
                    (true, None) => CommandStep::Reply { notice: CommandNotice::AddUsage },
                },
                Command::RestoreWorkspace => first == if input.in_control_chat {
                    CommandStep::ShowRestorePage
                } else {
                    misplaced
                },
                _ => first == misplaced <==> input.in_control_chat,
            }
        }),
        input.command != Command::Start && input.command != Command::AddWorkspace && input.command
            != Command::RestoreWorkspace && !input.in_control_chat ==> (command_start(input).1
            is LoadThread || command_start(input).1 is LoadRecord || command_start(input).1
            is LoadInfo <==> input.in_thread),
        command_next(CommandStage::LoggingStart, CommandEvent::Done).1 == (CommandStep::Reply {
            notice: CommandNotice::ControlConsole,
        }),
{
}

/// Who gave a command in the wrong place is told where it belongs.
pub proof fn law_misplaced_commands_say_their_place(command: Command)
    ensures
        command == Command::AddWorkspace ==> text::occurs_at(
            place_text(command),
            "/add_workspace"@,
            4,
        ) && text::occurs_at(place_text(command), "main private chat"@, 44),
        command == Command::RestoreWorkspace ==> text::occurs_at(
            place_text(command),
            "/restore_workspace"@,
            4,
        ) && text::occurs_at(place_text(command), "main private chat"@, 32),
        command != Command::AddWorkspace && command != Command::RestoreWorkspace ==> text::occurs_at(
            place_text(command),
            " inside a workspace thread."@,
            place_text(command).len() - 27,
        ),
        command != Command::AddWorkspace && command != Command::RestoreWorkspace && command
            != Command::PlanMode && command != Command::DefaultMode ==> text::occurs_at(
            place_text(command),
            command.name(),
            4,
        ),
{
    reveal_strlit("/add_workspace");
    reveal_strlit("/restore_workspace");
    reveal_strlit("main private chat");
    reveal_strlit(" inside a workspace thread.");
    reveal_strlit("Use ");
    reveal_strlit("Use /add_workspace <absolute-path> from the main private chat.");
    reveal_strlit("Use /restore_workspace from the main private chat.");
    reveal_strlit("Use this command inside a workspace thread.");
    let said = place_text(command);
    match command {
        Command::AddWorkspace => {
            assert(said.subrange(4, 18) =~= "/add_workspace"@);
            assert(said.subrange(44, 61) =~= "main private chat"@);
        },
        Command::RestoreWorkspace => {
            assert(said.subrange(4, 22) =~= "/restore_workspace"@);
            assert(said.subrange(32, 49) =~= "main private chat"@);
        },
        Command::PlanMode => {
            assert(said.subrange(16, 43) =~= " inside a workspace thread."@);
        },
        Command::DefaultMode => {
            assert(said.subrange(16, 43) =~= " inside a workspace thread."@);
        },
        _ => {
            let named = 4 + command.name().len() as int;
            assert(said.subrange(named, named + 27) =~= " inside a workspace thread."@);
            assert(said.subrange(4, named) =~= command.name());
        },
    }
}

/// The commands that change how a thread works together change it to the mode that they are named
/// after. Another mode than that is no success, nor is a thread that is gone behind the change.
pub proof fn law_collaboration_modes_are_set_as_commanded(
    input: CommandInput,
    thread_key: String,
    returned: CollaborationMode,
    active: bool,
)
    requires
        input.command == Command::PlanMode || input.command == Command::DefaultMode,
        input.in_thread && !input.in_control_chat,
    ensures
        ({
            let wanted = if input.command == Command::PlanMode {
                CollaborationMode::Plan
            } else {
                CollaborationMode::Default
            };
            let asked = command_next(command_start(input).0, CommandEvent::Done);
            let changed = command_next(
                asked.0,
                CommandEvent::Controlled(
                    RuntimeControlActionResult::SetThreadCollaborationMode {
                        thread_key,
                        mode: returned,
                    },
                ),
            );
            let last = command_next(changed.0, CommandEvent::Active(active));
            &&& asked.1 == (CommandStep::RunControl {
                request: RuntimeControlActionRequest::SetThreadCollaborationMode { mode: wanted },
            })
            &&& returned != wanted ==> changed.1 == (CommandStep::Finish {
                outcome: Err(CommandError::WrongMode { returned, wanted }),
            })
            &&& returned == wanted ==> changed.1 is FindActive
            &&& returned == wanted ==> last.1 == if active {
                CommandStep::Reply { notice: CommandNotice::ModeIsNow { mode: wanted } }
            } else {
                CommandStep::Finish { outcome: Err(CommandError::NotActive) }
            }
            &&& returned == wanted && active ==> command_next(last.0, CommandEvent::Done).1
                is Retitle
        }),
{
}

/// A local client is launched with the session that the argument names, where the launcher is
/// there, and the user is told with which one and in which mode.
pub proof fn law_launches_follow_the_argument(
    argument: Option<String>,
    named: Option<LaunchCommandTarget>,
    config: HcodexLaunchConfigView,
    result: RuntimeControlActionResult,
)
    ensures
        ({
            let read = command_next(
                CommandStage::ReadingLaunch { argument, target: named },
                CommandEvent::LaunchConfig(config),
            );
            let launched = command_next(read.0, CommandEvent::Controlled(result));
            match named {
                None => read.1 == (CommandStep::Reply {
                    notice: CommandNotice::LaunchUsage { config, refused: argument is Some },
                }),
                Some(named) => {
                    &&& !config.hcodex_available ==> read.1 == (CommandStep::Reply {
                        notice: CommandNotice::LauncherMissing,
                    })
                    &&& config.hcodex_available ==> (read.1 matches CommandStep::RunControl {
                        request,
                    } && request matches RuntimeControlActionRequest::LaunchLocalSession {
                        target,
                        session_id,
                    } && (named is New <==> target == LaunchLocalSessionTarget::New) && (
                    named is Current <==> target == LaunchLocalSessionTarget::ContinueCurrent) && (
                    named matches LaunchCommandTarget::Resume(id) ==> session_id == Some(id)) && (
                    named !is Resume ==> session_id is None) && launched.1 == (CommandStep::Reply {
                        notice: CommandNotice::Launched {
                            target,
                            mode: config.workspace_execution_mode,
                        },
                    }))
                },
            }
        }),
{
}

/// The mode of a workspace is changed only by the command that sets it and only to the mode that
/// its argument names; else it is shown, with a warning where it was to be changed.
pub proof fn law_execution_modes_are_set_as_commanded(
    input: CommandInput,
    facts: ThreadFacts,
    view: WorkspaceExecutionModeView,
)
    requires
        facts.state.lifecycle_status != LifecycleStatus::Archived,
        facts.session is Some,
    ensures
        ({
            let read = command_next(CommandStage::Loading { input }, CommandEvent::Thread(facts));
            let known = command_next(read.0, CommandEvent::ModeView(view));
            &&& input.command == Command::GetWorkspaceExecutionMode ==> read.1 is ReadModeView
                && known.1 == (CommandStep::Reply {
                notice: CommandNotice::ModeView { view, refused: false },
            })
            &&& input.command == Command::SetWorkspaceExecutionMode ==> read.1 is ReadModeView
                && known.1 == match input.execution_mode {
                Some(execution_mode) => CommandStep::RunControl {
                    request: RuntimeControlActionRequest::SetWorkspaceExecutionMode {
                        execution_mode,
                    },
                },
                None => CommandStep::Reply {
                    notice: CommandNotice::ModeView { view, refused: true },
                },
            }
        }),
{
}

/// A turn is ended by `/stop`, also where the thread looks idle. One that is asked to end for the
/// first time is watched, in the workspace of its thread; one that was asked before is not.
pub proof fn law_stopped_turns_are_watched_once(
    input: CommandInput,
    facts: ThreadFacts,
    thread_key: String,
    session_id: String,
    turn_id: Option<String>,
    state: InterruptRunningTurnState,
    reason: String,
)
    requires
        input.command == Command::Stop,
        facts.state.lifecycle_status != LifecycleStatus::Archived,
    ensures
        ({
            let asked = command_next(CommandStage::Loading { input }, CommandEvent::Thread(facts));
            let stopped = command_next(
                asked.0,
                CommandEvent::Controlled(
                    RuntimeControlActionResult::InterruptRunningTurn {
                        thread_key,
                        session_id,
                        turn_id,
                        state,
                    },
                ),
            );
            let notice = match facts.busy {
                Some(busy) => CommandNotice::StopStarted { busy },
                None => CommandNotice::StopRequested { session_id, state },
            };
            &&& asked.1 == (CommandStep::RunControl {
                request: RuntimeControlActionRequest::InterruptRunningTurn,
            })
            &&& command_next(asked.0, CommandEvent::Failed(reason)).1 == (CommandStep::Reply {
                notice: CommandNotice::StopFailed { reason },
            })
            &&& state == InterruptRunningTurnState::AlreadyRequested || turn_id is None
                || facts.session is None ==> stopped.1 == (CommandStep::Reply { notice })
            &&& state == InterruptRunningTurnState::Requested && turn_id is Some && facts.session
                is Some && facts.session->0.workspace_cwd is Some ==> stopped.1 == (
            CommandStep::Watch {
                workspace: facts.session->0.workspace_cwd->0,
                session_id,
                turn_id: turn_id->0,
            }) && command_next(stopped.0, CommandEvent::Done).1 == (CommandStep::Reply { notice })
        }),
{
}

/// A workspace gets the title that its session came up with, once the session is known to work: the
/// title is recorded, set, put on record and told, all from the same answer.
pub proof fn law_renamed_workspaces_have_the_given_title(
    target: TurnTarget,
    response: String,
    event: CommandEvent,
)
    ensures
        ({
            let prepared = command_next(
                CommandStage::PreparingRename { target },
                CommandEvent::Done,
            );
            let opened = command_next(prepared.0, CommandEvent::Done);
            let recorded = command_next(opened.0, CommandEvent::Done);
            let given = command_next(recorded.0, CommandEvent::Title(response));
            let verified = command_next(given.0, CommandEvent::Done);
            let ended = command_next(verified.0, CommandEvent::Done);
            let titled = command_next(ended.0, CommandEvent::Done);
            let logged = command_next(titled.0, CommandEvent::Done);
            &&& prepared.1 == (CommandStep::OpenWorkspace { workspace: target.workspace })
            &&& opened.1 == (CommandStep::RecordStart { target })
            &&& recorded.1 == (CommandStep::GenerateTitle { target })
            &&& given.1 is MarkVerified
            &&& verified.1 == (CommandStep::RecordEnd { target, response })
            &&& ended.1 == (CommandStep::SetTitle { response })
            &&& titled.1 == (CommandStep::LogTitle { response })
            &&& logged.1 is Retitle
            &&& command_next(logged.0, event).1 == (CommandStep::Reply {
                notice: CommandNotice::Renamed { response },
            })
        }),
{
}

/// A workspace is added at the path that the argument was resolved to, once it is known to be free:
/// a topic and a thread are made, what was left there is cleared away, and it is bound. The user is
/// told of the thread that it was bound to, and whether there was anything to clear away.
pub proof fn law_added_workspaces_are_at_their_path(
    path: String,
    preflight: WorkspaceAddPreflight,
    performed: bool,
    thread_key: String,
    event: CommandEvent,
)
    requires
        preflight.active_threads@.len() == 0 && preflight.archived_threads@.len() == 0,
    ensures
        ({
            let resolved = command_next(CommandStage::Resolving, CommandEvent::Path(path));
            let free = command_next(resolved.0, CommandEvent::Preflight(preflight));
            let topic = command_next(free.0, CommandEvent::Done);
            let thread = command_next(topic.0, CommandEvent::Done);
            let cleared = command_next(thread.0, CommandEvent::Reset { performed });
            let bound = command_next(cleared.0, CommandEvent::Bound { thread_key });
            &&& resolved.1 == (CommandStep::Preflight { path })
            &&& free.1 == (CommandStep::CreateTopic { path })
            &&& topic.1 is CreateThread
            &&& thread.1 == (CommandStep::ResetSurface { path })
            &&& cleared.1 == (CommandStep::BindWorkspace { path })
            &&& bound.1 is NotifyBound
            &&& command_next(bound.0, event).1 == (CommandStep::Reply {
                notice: CommandNotice::Added { preflight, reset_performed: performed, thread_key },
            })
        }),
{
}

/// The topic of a workspace is deleted before the workspace is archived, and whatever comes of
/// that, the workspace is archived and put on record as such.
pub proof fn law_archived_workspaces_lose_their_topic(input: CommandInput, event: CommandEvent)
    requires
        input.command == Command::ArchiveWorkspace,
        input.in_thread && !input.in_control_chat,
    ensures
        ({
            let found = command_next(command_start(input).0, CommandEvent::Done);
            let deleted = command_next(found.0, event);
            let archived = command_next(deleted.0, CommandEvent::Done);
            &&& found.1 is DeleteTopic
            &&& deleted.1 is Archive
            &&& archived.1 is LogArchive
            &&& command_next(archived.0, CommandEvent::Done).1 == (CommandStep::Finish {
                outcome: Ok(()),
            })
        }),
{
}

/// A fresh session is told of where one was started. Where none could be started the binding is
/// marked as broken, and the user is told why; a repair is told of as what came of it.
pub proof fn law_fresh_and_repaired_sessions_are_told_of(
    thread_key: String,
    verified: bool,
    broken_reason: Option<String>,
    result: RuntimeControlActionResult,
    reason: String,
)
    ensures
        command_next(CommandStage::StartingFresh, CommandEvent::Controlled(result)).1 == (
        CommandStep::Reply { notice: CommandNotice::FreshSession }),
        ({
            let failed = command_next(CommandStage::StartingFresh, CommandEvent::Failed(reason));
            &&& failed.1 == (CommandStep::MarkBroken { reason })
            &&& command_next(failed.0, CommandEvent::Done).1 == (CommandStep::Reply {
                notice: CommandNotice::FreshFailed { reason },
            })
        }),
        command_next(
            CommandStage::Repairing,
            CommandEvent::Controlled(
                RuntimeControlActionResult::RepairSessionBinding {
                    thread_key,
                    verified,
                    session_broken_reason: broken_reason,
                },
            ),
        ).1 == (CommandStep::Reply {
            notice: if verified {
                CommandNotice::Repaired
            } else {
                CommandNotice::NotRepaired
            },
        }),
        result !is RepairSessionBinding ==> command_next(
            CommandStage::Repairing,
            CommandEvent::Controlled(result),
        ).1 == (CommandStep::Finish {
            outcome: Err(CommandError::UnexpectedResult { action: ExpectedAction::Repair }),
        }),
{
}

/// The log of a session is that of the session that was asked for, and a list of sessions is that
/// of the thread that it was asked in.
pub proof fn law_sessions_are_shown_as_asked_for(
    input: CommandInput,
    facts: ThreadFacts,
    summaries: Vec<WorkingSessionSummaryView>,
    records: Vec<WorkingSessionRecordView>,
)
    requires
        facts.state.lifecycle_status != LifecycleStatus::Archived,
        facts.session is Some,
    ensures
        ({
            let read = command_next(CommandStage::Loading { input }, CommandEvent::Thread(facts));
            &&& input.command == Command::Sessions ==> read.1 is ReadSummaries && command_next(
                read.0,
                CommandEvent::Summaries(summaries),
            ).1 == (CommandStep::Reply {
                notice: CommandNotice::SessionList { session: facts.session->0, summaries },
            })
            &&& input.command == Command::SessionLog && input.argument is None ==> read.1 == (
            CommandStep::Reply { notice: CommandNotice::SessionLogUsage })
            &&& input.command == Command::SessionLog ==> (input.argument matches Some(session_id)
                ==> read.1 == (CommandStep::ReadRecords { session_id }) && command_next(
                read.0,
                CommandEvent::Records(Some(records)),
            ).1 == (CommandStep::Reply {
                notice: CommandNotice::SessionRecords { session_id, records },
            }) && command_next(read.0, CommandEvent::Records(None)).1 == (CommandStep::Reply {
                notice: CommandNotice::SessionMissing { session_id },
            }))
        }),
{
}

/// The user is warned exactly where something that was asked for was not done; what is shown, done
/// or not allowed is no warning.
pub proof fn law_failures_are_warnings(notice: CommandNotice)
    ensures
        notice.warns() <==> match notice {
            CommandNotice::LaunchUsage { refused, .. } => refused,
            CommandNotice::ModeView { refused, .. } => refused,
            _ => notice is FreshFailed || notice is NotRepaired || notice is LauncherMissing
                || notice is SessionMissing || notice is StopFailed || notice is RenameFailed,
        },
{
}

/// Notices say what they are about: the mode that was set, the session that is missing, the reason
/// of a failure, the title.
pub proof fn law_notices_say_what_they_are_about(
    mode: CollaborationMode,
    session_id: String,
    reason: String,
    response: String,
    thread_key: String,
    preflight: WorkspaceAddPreflight,
)
    ensures
        text::occurs_at((CommandNotice::ModeIsNow { mode }).body(), mode.name(), 27),
        text::occurs_at((CommandNotice::SessionMissing { session_id }).body(), session_id@, 9),
        text::occurs_at((CommandNotice::FreshFailed { reason }).body(), reason@, 20),
        (CommandNotice::StopFailed { reason }).body() == reason@,
        text::occurs_at(
            (CommandNotice::Renamed { response }).body(),
            text::trimmed(response@),
            19,
        ),
        ({
            let added = (CommandNotice::Added { preflight, reset_performed: true, thread_key }).body();
            text::occurs_at(added, thread_key@, added.len() - thread_key@.len())
        }),
{
    reveal_strlit("Collaboration mode is now `");
    reveal_strlit("Session `");
    reveal_strlit("New session failed: ");
    reveal_strlit("Workspace renamed: ");
    let now = (CommandNotice::ModeIsNow { mode }).body();
    assert(now.subrange(27, 27 + mode.name().len() as int) =~= mode.name());
    let missing = (CommandNotice::SessionMissing { session_id }).body();
    assert(missing.subrange(9, 9 + session_id@.len() as int) =~= session_id@);
    let failed = (CommandNotice::FreshFailed { reason }).body();
    assert(failed.subrange(20, 20 + reason@.len() as int) =~= reason@);
    let renamed = (CommandNotice::Renamed { response }).body();
    let title = text::trimmed(response@);
    assert(renamed.subrange(19, 19 + title.len() as int) =~= title);
    let added = (CommandNotice::Added { preflight, reset_performed: true, thread_key }).body();
    assert(added.subrange(added.len() - thread_key@.len(), added.len() as int) =~= thread_key@);
}

/// What was done is told of apart from what was not: each notice of a command begins with words of
/// its own.
pub proof fn law_outcomes_are_told_apart(
    busy: SessionCurrentStatus,
    view: WorkspaceExecutionModeView,
    target: LaunchLocalSessionTarget,
    mode: ExecutionMode,
)
    ensures
        "Workspace runtime restarted and the saved Codex session was resumed"@.is_prefix_of(
            CommandNotice::Repaired.body(),
        ),
        "Workspace runtime restarted, but the saved Codex session still could not be resumed"@.is_prefix_of(
            CommandNotice::NotRepaired.body(),
        ),
        "Started a fresh Codex session"@.is_prefix_of(CommandNotice::FreshSession.body()),
        "Control console."@.is_prefix_of(CommandNotice::ControlConsole.body()),
        "Workspace thread."@.is_prefix_of(CommandNotice::WorkspaceConsole.body()),
        ("Workspace execution mode is now `"@ + view.workspace_execution_mode.name()).is_prefix_of(
            (CommandNotice::ModeSet { view }).body(),
        ),
        ("Launched local hcodex via `"@ + target_name(target) + "` in `"@
            + mode.name()).is_prefix_of((CommandNotice::Launched { target, mode }).body()),
        target_name(target) == match target {
            LaunchLocalSessionTarget::New => "new"@,
            LaunchLocalSessionTarget::ContinueCurrent => "continue_current"@,
            LaunchLocalSessionTarget::Resume => "resume"@,
        },
{
    reveal_strlit("Workspace runtime restarted and the saved Codex session was resumed");
    reveal_strlit(
        "Workspace runtime restarted and the saved Codex session was resumed and verified.",
    );
    reveal_strlit(
        "Workspace runtime restarted, but the saved Codex session still could not be resumed",
    );
    reveal_strlit(
        "Workspace runtime restarted, but the saved Codex session still could not be resumed and verified. Use /start_fresh_session to start fresh or /repair_session_binding to retry.",
    );
    reveal_strlit("Started a fresh Codex session");
    reveal_strlit("Started a fresh Codex session for this workspace.");
    reveal_strlit("Control console.");
    reveal_strlit(
        "Control console.\nUse /add_workspace <absolute-path> for the workspace-first flow.",
    );
    reveal_strlit("Workspace thread.");
    reveal_strlit(
        "Workspace thread.\nUse /start_fresh_session, /repair_session_binding, /archive_workspace, /workspace_info, or /rename_workspace here.",
    );
    assert(("Workspace execution mode is now `"@
        + view.workspace_execution_mode.name()).is_prefix_of(
        (CommandNotice::ModeSet { view }).body(),
    ));
    assert(("Launched local hcodex via `"@ + target_name(target) + "` in `"@
        + mode.name()).is_prefix_of((CommandNotice::Launched { target, mode }).body()));
}

/// A command that takes an argument takes what stands behind its own name in the message; the others
/// take none.
pub proof fn law_arguments_stand_behind_their_command(command: Command, message: Seq<char>)
    ensures
        argument_for(command, None) is None,
        command == Command::AddWorkspace || command == Command::LaunchLocalSession || command
            == Command::SetWorkspaceExecutionMode || command == Command::SessionLog
            <==> argument_word(command) is Some,
        argument_word(command) matches Some(word) ==> argument_for(command, Some(message))
            == commands::argument_of(message, word) && command.name() == "/"@ + word,
        argument_word(command) is None ==> argument_for(command, Some(message)) is None,
{
    reveal_strlit("/");
    reveal_strlit("add_workspace");
    reveal_strlit("/add_workspace");
    reveal_strlit("launch_local_session");
    reveal_strlit("/launch_local_session");
    reveal_strlit("set_workspace_execution_mode");
    reveal_strlit("/set_workspace_execution_mode");
    reveal_strlit("session_log");
    reveal_strlit("/session_log");
    if let Some(word) = argument_word(command) {
        assert(command.name() =~= "/"@ + word);
    }
}

/// Why a command came to nothing says what is wrong: which action was answered with something else,
/// which mode was set instead of which, or what is missing.
pub proof fn law_command_errors_say_what_is_wrong(
    returned: CollaborationMode,
    wanted: CollaborationMode,
    reason: String,
)
    ensures
        CommandError::Outside(reason).message() == reason@,
        CommandError::MissingThreadId.message() == "thread message missing thread id"@,
        (CommandError::UnexpectedResult { action: ExpectedAction::Repair }).message()
            == "unexpected runtime control result for repair_session_binding"@,
        (CommandError::UnexpectedResult { action: ExpectedAction::ExecutionMode }).message()
            == "unexpected runtime control result for set_workspace_execution_mode"@,
        (CommandError::UnexpectedResult { action: ExpectedAction::CollaborationMode }).message()
            == "unexpected runtime control result for set_thread_collaboration_mode"@,
        (CommandError::UnexpectedResult { action: ExpectedAction::Interrupt }).message()
            == "unexpected runtime control result for interrupt_running_turn"@,
        (CommandError::WrongMode { returned, wanted }).message()
            == "collaboration mode action returned `"@ + returned.name() + "` instead of `"@
            + wanted.name() + "`"@,
        CommandError::NotActive.message()
            == "thread_key is not an active thread after collaboration mode change"@,
        CommandError::MissingWorkspace.message() == "session binding is missing workspace_cwd"@,
{
}

/// Who is told how a command is used, or what is not there, is told just that.
pub proof fn law_users_are_told_how_to_go_on(
    session: SessionBinding,
    summaries: Vec<WorkingSessionSummaryView>,
    session_id: String,
    records: Vec<WorkingSessionRecordView>,
)
    ensures
        CommandNotice::AddUsage.body() == "Usage: /add_workspace <absolute-path>"@,
        CommandNotice::SessionLogUsage.body() == "Usage: /session_log <session_id>"@,
        CommandNotice::Archived.body() == "This workspace is archived."@,
        CommandNotice::NotBound.body() == "This workspace thread is not bound yet."@,
        CommandNotice::LauncherMissing.body()
            == "Managed hcodex is unavailable for this workspace."@,
        "Codex session is unavailable. Use /repair_session_binding"@.is_prefix_of(
            CommandNotice::RenameFailed.body(),
        ),
        summaries@.len() == 0 ==> (CommandNotice::SessionList { session, summaries }).body()
            == "No working sessions recorded yet."@,
        records@.len() == 0 ==> (CommandNotice::SessionRecords { session_id, records }).body()
            == "No records found for session `"@ + session_id@ + "`."@,
{
    reveal_strlit("Codex session is unavailable. Use /repair_session_binding");
    reveal_strlit(
        "Codex session is unavailable. Use /repair_session_binding or /start_fresh_session.",
    );
}

/// A command whose thread is bound to no workspace, or whose turn has none to be watched in, fails for
/// that.
pub proof fn law_commands_need_a_workspace(
    input: CommandInput,
    facts: ThreadFacts,
    thread_key: String,
    session_id: String,
    turn_id: String,
)
    requires
        facts.state.lifecycle_status != LifecycleStatus::Archived,
        facts.session is Some,
        facts.session->0.workspace_cwd is None,
    ensures
        ({
            let loaded = command_next(CommandStage::Loading { input }, CommandEvent::Thread(facts));
            let missing = CommandStep::Finish { outcome: Err(CommandError::MissingWorkspace) };
            &&& input.command == Command::RenameWorkspace && facts.usable() is Some && facts.busy
                is None ==> loaded.1 == missing
            &&& input.command == Command::Stop ==> command_next(
                loaded.0,
                CommandEvent::Controlled(
                    RuntimeControlActionResult::InterruptRunningTurn {
                        thread_key,
                        session_id,
                        turn_id: Some(turn_id),
                        state: InterruptRunningTurnState::Requested,
                    },
                ),
            ).1 == missing
        }),
{
}

/// Nothing is taken that was not asked for: a command that has ended stays so, and an event of
/// another step ends it.
pub proof fn law_commands_take_only_what_was_asked_for(event: CommandEvent, path: String)
    ensures
        command_next(CommandStage::Finished, event).1 == (CommandStep::Finish {
            outcome: Err(CommandError::OutOfTurn),
        }),
        event !is Path && event !is Failed ==> command_next(CommandStage::Resolving, event).1 == (
        CommandStep::Finish { outcome: Err(CommandError::OutOfTurn) }),
{
}

/// The texts of notices are whole sentences around what they are about.
pub proof fn law_notices_are_whole_sentences(
    mode: CollaborationMode,
    session_id: String,
    target: LaunchLocalSessionTarget,
    chosen: ExecutionMode,
)
    ensures
        (CommandNotice::SessionMissing { session_id }).body() == "Session `"@ + session_id@
            + "` was not found for this workspace."@,
        (CommandNotice::ModeIsNow { mode }).body() == "Collaboration mode is now `"@ + mode.name()
            + "`."@,
        (CommandNotice::Launched { target, mode: chosen }).body() == "Launched local hcodex via `"@
            + target_name(target) + "` in `"@ + chosen.name() + "` mode."@,
        CommandNotice::FreshSession.body() == "Started a fresh Codex session for this workspace."@,
{
}

} // verus!
