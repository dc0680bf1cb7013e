//! The commands that a user can send.
use vstd::prelude::*;
use vstd::string::*;

use crate::text;

verus! {

broadcast use vstd::string::group_string_axioms;

/// A command.
#[derive(Debug, Clone, Copy, PartialEq, Eq, Structural)]
pub enum Command {
    Start,
    AddWorkspace,
    NewSession,
    StartFreshSession,
    RenameWorkspace,
    ArchiveWorkspace,
    RestoreWorkspace,
    RepairSession,
    RepairSessionBinding,
    WorkspaceInfo,
    LaunchLocalSession,
    GetWorkspaceExecutionMode,
    SetWorkspaceExecutionMode,
    Sessions,
    SessionLog,
    Stop,
    PlanMode,
    DefaultMode,
}

/// A command, as it is shown to the user.
#[derive(Debug, Clone, PartialEq, Eq)]
pub struct CommandInfo {
    pub command: String,
    pub description: String,
}

/// Why a text is no command.
#[derive(Debug, Clone, PartialEq, Eq)]
pub enum CommandParseError {
    /// The command is for another bot.
    WrongBotName(String),
    /// There is no such command.
    UnknownCommand(String),
}

impl Command {
    /// The text that stands for the command.
    pub open spec fn name(self) -> Seq<char> {
        match self {
            Command::Start => "/start"@,
            Command::AddWorkspace => "/add_workspace"@,
            Command::NewSession => "/new_session"@,
            Command::StartFreshSession => "/start_fresh_session"@,
            Command::RenameWorkspace => "/rename_workspace"@,
            Command::ArchiveWorkspace => "/archive_workspace"@,
            Command::RestoreWorkspace => "/restore_workspace"@,
            Command::RepairSession => "/repair_session"@,
            Command::RepairSessionBinding => "/repair_session_binding"@,
            Command::WorkspaceInfo => "/workspace_info"@,
            Command::LaunchLocalSession => "/launch_local_session"@,
            Command::GetWorkspaceExecutionMode => "/get_workspace_execution_mode"@,
            Command::SetWorkspaceExecutionMode => "/set_workspace_execution_mode"@,
            Command::Sessions => "/sessions"@,
            Command::SessionLog => "/session_log"@,
            Command::Stop => "/stop"@,
            Command::PlanMode => "/plan_mode"@,
            Command::DefaultMode => "/default_mode"@,
        }
    }

    /// What the command does, in words.
    pub open spec fn purpose(self) -> Seq<char> {
        match self {
            Command::Start => {
                "Show commands for the control chat and managed workspaces"@
            },
            Command::AddWorkspace => {
                "Add a workspace and create or reuse its Telegram thread"@
            },
            Command::NewSession => {
                "Start a fresh Codex session for this workspace"@
            },
            Command::StartFreshSession => {
                "Start a fresh Codex session for this workspace"@
            },
            Command::RenameWorkspace => {
                "Rename the current workspace from chat history"@
            },
            Command::ArchiveWorkspace => {
                "Archive the current workspace"@
            },
            Command::RestoreWorkspace => {
                "Show archived workspaces and restore one interactively"@
            },
            Command::RepairSession => {
                "Repair the current workspace's Codex session continuity"@
            },
            Command::RepairSessionBinding => {
                "Repair the current workspace's Codex session continuity"@
            },
            Command::WorkspaceInfo => {
                "Show this workspace's key, path, session, and local session state"@
            },
            Command::LaunchLocalSession => {
                "Launch a local session for this workspace"@
            },
            Command::GetWorkspaceExecutionMode => {
                "Show the execution mode of this workspace"@
            },
            Command::SetWorkspaceExecutionMode => {
                "Set the execution mode of this workspace"@
            },
            Command::Sessions => {
                "Show the working sessions of this workspace"@
            },
            Command::SessionLog => {
                "Show the records of a working session"@
            },
            Command::Stop => {
                "Interrupt the running turn of this workspace"@
            },
            Command::PlanMode => {
                "Set this workspace thread to Plan collaboration mode"@
            },
            Command::DefaultMode => {
                "Set this workspace thread to Default collaboration mode"@
            },
        }
    }

    /// All commands.
    pub open spec fn all() -> Seq<Command> {
        seq![
            Command::Start,
            Command::AddWorkspace,
            Command::NewSession,
            Command::StartFreshSession,
            Command::RenameWorkspace,
            Command::ArchiveWorkspace,
            Command::RestoreWorkspace,
            Command::RepairSession,
            Command::RepairSessionBinding,
            Command::WorkspaceInfo,
            Command::LaunchLocalSession,
            Command::GetWorkspaceExecutionMode,
            Command::SetWorkspaceExecutionMode,
            Command::Sessions,
            Command::SessionLog,
            Command::Stop,
            Command::PlanMode,
            Command::DefaultMode,
        ]
    }

    /// The text that stands for the command.
    pub fn as_str(self) -> (res: &'static str)
        ensures
            res@ == self.name(),
    {
        match self {
            Command::Start => "/start",
            Command::AddWorkspace => "/add_workspace",
            Command::NewSession => "/new_session",
            Command::StartFreshSession => "/start_fresh_session",
            Command::RenameWorkspace => "/rename_workspace",
            Command::ArchiveWorkspace => "/archive_workspace",
            Command::RestoreWorkspace => "/restore_workspace",
            Command::RepairSession => "/repair_session",
            Command::RepairSessionBinding => "/repair_session_binding",
            Command::WorkspaceInfo => "/workspace_info",
            Command::LaunchLocalSession => "/launch_local_session",
            Command::GetWorkspaceExecutionMode => "/get_workspace_execution_mode",
            Command::SetWorkspaceExecutionMode => "/set_workspace_execution_mode",
            Command::Sessions => "/sessions",
            Command::SessionLog => "/session_log",
            Command::Stop => "/stop",
            Command::PlanMode => "/plan_mode",
            Command::DefaultMode => "/default_mode",
        }
    }

    /// What the command does, in words.
    pub fn description(self) -> (res: &'static str)
        ensures
            res@ == self.purpose(),
    {
        match self {
            Command::Start => {
                "Show commands for the control chat and managed workspaces"
            },
            Command::AddWorkspace => {
                "Add a workspace and create or reuse its Telegram thread"
            },
            Command::NewSession => {
                "Start a fresh Codex session for this workspace"
            },
            Command::StartFreshSession => {
                "Start a fresh Codex session for this workspace"
            },
            Command::RenameWorkspace => {
                "Rename the current workspace from chat history"
            },
            Command::ArchiveWorkspace => {
                "Archive the current workspace"
            },
            Command::RestoreWorkspace => {
                "Show archived workspaces and restore one interactively"
            },
            Command::RepairSession => {
                "Repair the current workspace's Codex session continuity"
            },
            Command::RepairSessionBinding => {
                "Repair the current workspace's Codex session continuity"
            },
            Command::WorkspaceInfo => {
                "Show this workspace's key, path, session, and local session state"
            },
            Command::LaunchLocalSession => {
                "Launch a local session for this workspace"
            },
            Command::GetWorkspaceExecutionMode => {
                "Show the execution mode of this workspace"
            },
            Command::SetWorkspaceExecutionMode => {
                "Set the execution mode of this workspace"
            },
            Command::Sessions => {
                "Show the working sessions of this workspace"
            },
            Command::SessionLog => {
                "Show the records of a working session"
            },
            Command::Stop => {
                "Interrupt the running turn of this workspace"
            },
            Command::PlanMode => {
                "Set this workspace thread to Plan collaboration mode"
            },
            Command::DefaultMode => {
                "Set this workspace thread to Default collaboration mode"
            },
        }
    }
}

/// The command that a text stands for.
pub open spec fn command_named(name: Seq<char>) -> Option<Command> {
    if name == Command::Start.name() {
        Some(Command::Start)
    } else if name == Command::AddWorkspace.name() {
        Some(Command::AddWorkspace)
    } else if name == Command::NewSession.name() {
        Some(Command::NewSession)
    } else if name == Command::StartFreshSession.name() {
        Some(Command::StartFreshSession)
    } else if name == Command::RenameWorkspace.name() {
        Some(Command::RenameWorkspace)
    } else if name == Command::ArchiveWorkspace.name() {
        Some(Command::ArchiveWorkspace)
    } else if name == Command::RestoreWorkspace.name() {
        Some(Command::RestoreWorkspace)
    } else if name == Command::RepairSession.name() {
        Some(Command::RepairSession)
    } else if name == Command::RepairSessionBinding.name() {
        Some(Command::RepairSessionBinding)
    } else if name == Command::WorkspaceInfo.name() {
        Some(Command::WorkspaceInfo)
    } else if name == Command::LaunchLocalSession.name() {
        Some(Command::LaunchLocalSession)
    } else if name == Command::GetWorkspaceExecutionMode.name() {
        Some(Command::GetWorkspaceExecutionMode)
    } else if name == Command::SetWorkspaceExecutionMode.name() {
        Some(Command::SetWorkspaceExecutionMode)
    } else if name == Command::Sessions.name() {
        Some(Command::Sessions)
    } else if name == Command::SessionLog.name() {
        Some(Command::SessionLog)
    } else if name == Command::Stop.name() {
        Some(Command::Stop)
    } else if name == Command::PlanMode.name() {
        Some(Command::PlanMode)
    } else if name == Command::DefaultMode.name() {
        Some(Command::DefaultMode)
    } else {
        None
    }
}

/// The command that a text stands for.
fn find_command(name: &str) -> (res: Option<Command>)
    ensures
        res == command_named(name@),
{
    if text::same_text(name, "/start") {
        Some(Command::Start)
    } else if text::same_text(name, "/add_workspace") {
        Some(Command::AddWorkspace)
    } else if text::same_text(name, "/new_session") {
        Some(Command::NewSession)
    } else if text::same_text(name, "/start_fresh_session") {
        Some(Command::StartFreshSession)
    } else if text::same_text(name, "/rename_workspace") {
        Some(Command::RenameWorkspace)
    } else if text::same_text(name, "/archive_workspace") {
        Some(Command::ArchiveWorkspace)
    } else if text::same_text(name, "/restore_workspace") {
        Some(Command::RestoreWorkspace)
    } else if text::same_text(name, "/repair_session") {
        Some(Command::RepairSession)
    } else if text::same_text(name, "/repair_session_binding") {
        Some(Command::RepairSessionBinding)
    } else if text::same_text(name, "/workspace_info") {
        Some(Command::WorkspaceInfo)
    } else if text::same_text(name, "/launch_local_session") {
        Some(Command::LaunchLocalSession)
    } else if text::same_text(name, "/get_workspace_execution_mode") {
        Some(Command::GetWorkspaceExecutionMode)
    } else if text::same_text(name, "/set_workspace_execution_mode") {
        Some(Command::SetWorkspaceExecutionMode)
    } else if text::same_text(name, "/sessions") {
        Some(Command::Sessions)
    } else if text::same_text(name, "/session_log") {
        Some(Command::SessionLog)
    } else if text::same_text(name, "/stop") {
        Some(Command::Stop)
    } else if text::same_text(name, "/plan_mode") {
        Some(Command::PlanMode)
    } else if text::same_text(name, "/default_mode") {
        Some(Command::DefaultMode)
    } else {
        None
    }
}

/// What stands in front of the first blank.
pub open spec fn head_of(message: Seq<char>) -> Seq<char> {
    text::pieces(message, ' ')[0]
}

/// The bot that a command is for, where it says so behind an at sign.
pub open spec fn bot_of(head: Seq<char>) -> Option<Seq<char>> {
    let parts = text::pieces(head, '@');
    if parts.len() > 1 {
        Some(parts[1])
    } else {
        None
    }
}

/// Whether a command is for the bot: it names no bot, or this one, in whatever case.
pub open spec fn is_for(head: Seq<char>, bot_name: Seq<char>) -> bool {
    match bot_of(head) {
        Some(name) => text::ascii_lowercase(name) == text::ascii_lowercase(bot_name),
        None => true,
    }
}

impl Command {
    /// The command that a message stands for. What stands behind the first blank are its
    /// arguments.
    pub fn parse(message: &str, bot_name: &str) -> (res: Result<Command, CommandParseError>)
        ensures
            match res {
                Ok(command) => is_for(head_of(message@), bot_name@) && command_named(
                    text::pieces(head_of(message@), '@')[0],
                ) == Some(command),
                Err(CommandParseError::WrongBotName(name)) => !is_for(
                    head_of(message@),
                    bot_name@,
                ) && bot_of(head_of(message@)) == Some(name@),
                Err(CommandParseError::UnknownCommand(name)) => is_for(
                    head_of(message@),
                    bot_name@,
                ) && name@ == text::pieces(head_of(message@), '@')[0] && command_named(
                    name@,
                ) is None,
            },
    {
        let words = text::split_at_char(message, ' ');
        proof {
            text::lemma_pieces_nonempty(message@, ' ');
            assert(text::views(words@)[0] == words@[0]@);
        }
        let parts = text::split_at_char(words[0].as_str(), '@');
        proof {
            text::lemma_pieces_nonempty(head_of(message@), '@');
            assert(text::views(parts@)[0] == parts@[0]@);
        }
        if parts.len() > 1 {
            proof {
                assert(text::views(parts@)[1] == parts@[1]@);
            }
            let named = text::to_ascii_lowercase(parts[1].as_str());
            let wanted = text::to_ascii_lowercase(bot_name);
            if !text::same_text(named.as_str(), wanted.as_str()) {
                return Err(CommandParseError::WrongBotName(parts[1].clone()));
            }
        }
        match find_command(parts[0].as_str()) {
            Some(command) => Ok(command),
            None => Err(CommandParseError::UnknownCommand(parts[0].clone())),
        }
    }
}

/// The commands, as they are shown to the user.
pub fn command_list() -> (res: Vec<CommandInfo>)
    ensures
        res@.len() == Command::all().len(),
        forall|i: int|
            0 <= i < res@.len() ==> (#[trigger] res@[i]).command@ == Command::all()[i].name()
                && res@[i].description@ == Command::all()[i].purpose(),
{
    let all: Vec<Command> = vec![
        Command::Start,
        Command::AddWorkspace,
        Command::NewSession,
        Command::StartFreshSession,
        Command::RenameWorkspace,
        Command::ArchiveWorkspace,
        Command::RestoreWorkspace,
        Command::RepairSession,
        Command::RepairSessionBinding,
        Command::WorkspaceInfo,
        Command::LaunchLocalSession,
        Command::GetWorkspaceExecutionMode,
        Command::SetWorkspaceExecutionMode,
        Command::Sessions,
        Command::SessionLog,
        Command::Stop,
        Command::PlanMode,
        Command::DefaultMode,
    ];
    let mut res: Vec<CommandInfo> = Vec::new();
    let mut i: usize = 0;
    proof {
        assert(all@ =~= Command::all());
    }
    while i < all.len()
        invariant
            i <= all@.len(),
            all@ == Command::all(),
            res@.len() == i,
            forall|k: int|
                0 <= k < i ==> (#[trigger] res@[k]).command@ == Command::all()[k].name()
                    && res@[k].description@ == Command::all()[k].purpose(),
        decreases all@.len() - i,
    {
        let command = all[i];
        res.push(
            CommandInfo {
                command: command.as_str().to_owned(),
                description: command.description().to_owned(),
            },
        );
        i += 1;
    }
    res
}

/// The names of commands differ.
proof fn lemma_names_differ(a: Command, b: Command)
    requires
        a != b,
    ensures
        a.name() != b.name(),
{
    reveal_strlit("/start");
    reveal_strlit("/add_workspace");
    reveal_strlit("/new_session");
    reveal_strlit("/start_fresh_session");
    reveal_strlit("/rename_workspace");
    reveal_strlit("/archive_workspace");
    reveal_strlit("/restore_workspace");
    reveal_strlit("/repair_session");
    reveal_strlit("/repair_session_binding");
    reveal_strlit("/workspace_info");
    reveal_strlit("/launch_local_session");
    reveal_strlit("/get_workspace_execution_mode");
    reveal_strlit("/set_workspace_execution_mode");
    reveal_strlit("/sessions");
    reveal_strlit("/session_log");
    reveal_strlit("/stop");
    reveal_strlit("/plan_mode");
    reveal_strlit("/default_mode");
    assert("/start"@.len() == 6);
    assert("/add_workspace"@.len() == 14);
    assert("/new_session"@.len() == 12);
    assert("/start_fresh_session"@.len() == 20);
    assert("/rename_workspace"@.len() == 17);
    assert("/archive_workspace"@.len() == 18);
    assert("/restore_workspace"@.len() == 18);
    assert("/repair_session"@.len() == 15);
    assert("/repair_session_binding"@.len() == 23);
    assert("/workspace_info"@.len() == 15);
    assert("/launch_local_session"@.len() == 21);
    assert("/get_workspace_execution_mode"@.len() == 29);
    assert("/set_workspace_execution_mode"@.len() == 29);
    assert("/sessions"@.len() == 9);
    assert("/session_log"@.len() == 12);
    assert("/stop"@.len() == 5);
    assert("/plan_mode"@.len() == 10);
    assert("/default_mode"@.len() == 13);
    assert("/new_session"@[1] == 'n');
    assert("/session_log"@[1] == 's');
    assert("/archive_workspace"@[1] == 'a');
    assert("/restore_workspace"@[1] == 'r');
    assert("/repair_session"@[1] == 'r');
    assert("/workspace_info"@[1] == 'w');
    assert("/get_workspace_execution_mode"@[1] == 'g');
    assert("/set_workspace_execution_mode"@[1] == 's');
}

/// A command is read back from its name, for any bot.
pub proof fn law_command_names_read_back(command: Command)
    ensures
        command_named(command.name()) == Some(command),
{
    if command != Command::Start {
        lemma_names_differ(command, Command::Start);
    }
    if command != Command::AddWorkspace {
        lemma_names_differ(command, Command::AddWorkspace);
    }
    if command != Command::NewSession {
        lemma_names_differ(command, Command::NewSession);
    }
    if command != Command::StartFreshSession {
        lemma_names_differ(command, Command::StartFreshSession);
    }
    if command != Command::RenameWorkspace {
        lemma_names_differ(command, Command::RenameWorkspace);
    }
    if command != Command::ArchiveWorkspace {
        lemma_names_differ(command, Command::ArchiveWorkspace);
    }
    if command != Command::RestoreWorkspace {
        lemma_names_differ(command, Command::RestoreWorkspace);
    }
    if command != Command::RepairSession {
        lemma_names_differ(command, Command::RepairSession);
    }
    if command != Command::RepairSessionBinding {
        lemma_names_differ(command, Command::RepairSessionBinding);
    }
    if command != Command::WorkspaceInfo {
        lemma_names_differ(command, Command::WorkspaceInfo);
    }
    if command != Command::LaunchLocalSession {
        lemma_names_differ(command, Command::LaunchLocalSession);
    }
    if command != Command::GetWorkspaceExecutionMode {
        lemma_names_differ(command, Command::GetWorkspaceExecutionMode);
    }
    if command != Command::SetWorkspaceExecutionMode {
        lemma_names_differ(command, Command::SetWorkspaceExecutionMode);
    }
    if command != Command::Sessions {
        lemma_names_differ(command, Command::Sessions);
    }
    if command != Command::SessionLog {
        lemma_names_differ(command, Command::SessionLog);
    }
    if command != Command::Stop {
        lemma_names_differ(command, Command::Stop);
    }
    if command != Command::PlanMode {
        lemma_names_differ(command, Command::PlanMode);
    }
    if command != Command::DefaultMode {
        lemma_names_differ(command, Command::DefaultMode);
    }
}

/// Every command is shown once.
pub proof fn law_commands_are_complete(command: Command)
    ensures
        exists|i: int| 0 <= i < Command::all().len() && #[trigger] Command::all()[i] == command,
        forall|i: int, j: int|
            0 <= i < j < Command::all().len() ==> #[trigger] Command::all()[i]
                != #[trigger] Command::all()[j],
{
    let all = Command::all();
    match command {
        Command::Start => assert(all[0] == command),
        Command::AddWorkspace => assert(all[1] == command),
        Command::NewSession => assert(all[2] == command),
        Command::StartFreshSession => assert(all[3] == command),
        Command::RenameWorkspace => assert(all[4] == command),
        Command::ArchiveWorkspace => assert(all[5] == command),
        Command::RestoreWorkspace => assert(all[6] == command),
        Command::RepairSession => assert(all[7] == command),
        Command::RepairSessionBinding => assert(all[8] == command),
        Command::WorkspaceInfo => assert(all[9] == command),
        Command::LaunchLocalSession => assert(all[10] == command),
        Command::GetWorkspaceExecutionMode => assert(all[11] == command),
        Command::SetWorkspaceExecutionMode => assert(all[12] == command),
        Command::Sessions => assert(all[13] == command),
        Command::SessionLog => assert(all[14] == command),
        Command::Stop => assert(all[15] == command),
        Command::PlanMode => assert(all[16] == command),
        Command::DefaultMode => assert(all[17] == command),
    }
}

/// What stands behind a command in a message, trimmed, where anything does.
pub open spec fn argument_of(message: Seq<char>, command_name: Seq<char>) -> Option<Seq<char>> {
    let trimmed = text::trimmed(message);
    let prefix = "/"@ + command_name;
    if text::occurs_at(trimmed, prefix, 0) {
        text::filled(Some(trimmed.skip(prefix.len() as int)))
    } else {
        None
    }
}

/// What stands behind a command in a message, trimmed, where anything does.
pub fn command_argument_text(message: Option<&str>, command_name: &str) -> (res: Option<String>)
    ensures
        text::opt_view(res) == match message {
            Some(message) => argument_of(message@, command_name@),
            None => None,
        },
{
    match message {
        Some(message) => {
            let trimmed = text::trim(message);
            let prefix = text::concat2("/", command_name);
            match text::strip_prefix(trimmed, prefix.as_str()) {
                Some(rest) => match text::trim_filled(Some(rest)) {
                    Some(argument) => Some(argument.to_owned()),
                    None => None,
                },
                None => None,
            }
        },
        None => None,
    }
}

/// A text stands for a command exactly where it is the name that users know the command by.
pub proof fn law_commands_go_by_their_names(name: Seq<char>)
    ensures
        command_named(name) == Some(Command::Start) <==> name == "/start"@,
        command_named(name) == Some(Command::AddWorkspace) <==> name == "/add_workspace"@,
        command_named(name) == Some(Command::NewSession) <==> name == "/new_session"@,
        command_named(name) == Some(Command::StartFreshSession) <==> name == "/start_fresh_session"@,
        command_named(name) == Some(Command::RenameWorkspace) <==> name == "/rename_workspace"@,
        command_named(name) == Some(Command::ArchiveWorkspace) <==> name == "/archive_workspace"@,
        command_named(name) == Some(Command::RestoreWorkspace) <==> name == "/restore_workspace"@,
        command_named(name) == Some(Command::RepairSession) <==> name == "/repair_session"@,
        command_named(name) == Some(Command::RepairSessionBinding) <==> name == "/repair_session_binding"@,
        command_named(name) == Some(Command::WorkspaceInfo) <==> name == "/workspace_info"@,
        command_named(name) == Some(Command::LaunchLocalSession) <==> name == "/launch_local_session"@,
        command_named(name) == Some(Command::GetWorkspaceExecutionMode) <==> name == "/get_workspace_execution_mode"@,
        command_named(name) == Some(Command::SetWorkspaceExecutionMode) <==> name == "/set_workspace_execution_mode"@,
        command_named(name) == Some(Command::Sessions) <==> name == "/sessions"@,
        command_named(name) == Some(Command::SessionLog) <==> name == "/session_log"@,
        command_named(name) == Some(Command::Stop) <==> name == "/stop"@,
        command_named(name) == Some(Command::PlanMode) <==> name == "/plan_mode"@,
        command_named(name) == Some(Command::DefaultMode) <==> name == "/default_mode"@,
{
    law_command_names_read_back(Command::Start);
    law_command_names_read_back(Command::AddWorkspace);
    law_command_names_read_back(Command::NewSession);
    law_command_names_read_back(Command::StartFreshSession);
    law_command_names_read_back(Command::RenameWorkspace);
    law_command_names_read_back(Command::ArchiveWorkspace);
    law_command_names_read_back(Command::RestoreWorkspace);
    law_command_names_read_back(Command::RepairSession);
    law_command_names_read_back(Command::RepairSessionBinding);
    law_command_names_read_back(Command::WorkspaceInfo);
    law_command_names_read_back(Command::LaunchLocalSession);
    law_command_names_read_back(Command::GetWorkspaceExecutionMode);
    law_command_names_read_back(Command::SetWorkspaceExecutionMode);
    law_command_names_read_back(Command::Sessions);
    law_command_names_read_back(Command::SessionLog);
    law_command_names_read_back(Command::Stop);
    law_command_names_read_back(Command::PlanMode);
    law_command_names_read_back(Command::DefaultMode);
}

/// A message is a command up to its first blank, and what stands behind an at sign there is the bot
/// that it is for. A command that names no bot is for every bot, and one that names a bot for that
/// one only, in whatever case.
pub proof fn law_commands_end_at_the_first_blank(
    command: Seq<char>,
    bot: Seq<char>,
    rest: Seq<char>,
    other: Seq<char>,
)
    requires
        !command.contains(' '),
        !command.contains('@'),
        !bot.contains(' '),
        !bot.contains('@'),
    ensures
        head_of(command) == command,
        head_of(command + seq![' '] + rest) == command,
        bot_of(command) is None,
        is_for(command, other),
        text::pieces(command, '@')[0] == command,
        head_of(command + seq!['@'] + bot + seq![' '] + rest) == command + seq!['@'] + bot,
        bot_of(command + seq!['@'] + bot) == Some(bot),
        text::pieces(command + seq!['@'] + bot, '@')[0] == command,
        is_for(command + seq!['@'] + bot, bot),
        is_for(command + seq!['@'] + bot, other) <==> text::ascii_lowercase(bot)
            == text::ascii_lowercase(other),
{
    let empty = Seq::<char>::empty();
    let named = command + seq!['@'] + bot;
    text::law_pieces_end_at_separators(command, rest, ' ');
    text::law_pieces_end_at_separators(command, bot, '@');
    text::law_pieces_end_at_separators(bot, empty, '@');
    assert forall|k: int| 0 <= k < named.len() implies named[k] != ' ' by {
        if k < command.len() {
            assert(named[k] == command[k]);
            assert(command.contains(command[k]));
        } else if k > command.len() {
            assert(named[k] == bot[k - command.len() - 1]);
            assert(bot.contains(bot[k - command.len() - 1]));
        }
    }
    assert(!named.contains(' '));
    text::law_pieces_end_at_separators(named, rest, ' ');
    assert(text::pieces(named, '@') =~= seq![command, bot]);
}

/// The argument of a command is what stands behind its name, without the white space around it;
/// a message of another name has none, and neither has one that ends with the name.
pub proof fn law_arguments_follow_the_name(
    message: Seq<char>,
    command_name: Seq<char>,
    rest: Seq<char>,
)
    ensures
        text::trimmed(message) == "/"@ + command_name + rest ==> argument_of(message, command_name)
            == if text::is_blank(rest) {
            None
        } else {
            Some(text::trimmed(rest))
        },
        !text::occurs_at(text::trimmed(message), "/"@ + command_name, 0) ==> argument_of(
            message,
            command_name,
        ) is None,
{
    let prefix = "/"@ + command_name;
    let whole = prefix + rest;
    assert(whole.subrange(0, prefix.len() as int) =~= prefix);
    assert(whole.skip(prefix.len() as int) =~= rest);
}

/// What is told of a command is what it does: commands that do the same are described alike, and the
/// modes that a command sets or shows are named.
pub proof fn law_commands_are_described_by_what_they_do(command: Command)
    ensures
        Command::NewSession.purpose() == Command::StartFreshSession.purpose(),
        Command::RepairSession.purpose() == Command::RepairSessionBinding.purpose(),
        "Show commands"@.is_prefix_of(Command::Start.purpose()),
        "Add a workspace"@.is_prefix_of(Command::AddWorkspace.purpose()),
        "Start a fresh Codex session"@.is_prefix_of(Command::StartFreshSession.purpose()),
        "Rename the current workspace"@.is_prefix_of(Command::RenameWorkspace.purpose()),
        "Archive the current workspace"@.is_prefix_of(Command::ArchiveWorkspace.purpose()),
        "Show archived workspaces and restore"@.is_prefix_of(Command::RestoreWorkspace.purpose()),
        "Repair the current workspace"@.is_prefix_of(Command::RepairSessionBinding.purpose()),
        "Launch a local session"@.is_prefix_of(Command::LaunchLocalSession.purpose()),
        "Show the execution mode"@.is_prefix_of(Command::GetWorkspaceExecutionMode.purpose()),
        "Set the execution mode"@.is_prefix_of(Command::SetWorkspaceExecutionMode.purpose()),
        "Show the working sessions"@.is_prefix_of(Command::Sessions.purpose()),
        "Show the records"@.is_prefix_of(Command::SessionLog.purpose()),
        "Interrupt the running turn"@.is_prefix_of(Command::Stop.purpose()),
        "Set this workspace thread to Plan"@.is_prefix_of(Command::PlanMode.purpose()),
        "Set this workspace thread to Default"@.is_prefix_of(Command::DefaultMode.purpose()),
{
    reveal_strlit("Show commands");
    reveal_strlit("Show commands for the control chat and managed workspaces");
    reveal_strlit("Add a workspace");
    reveal_strlit("Add a workspace and create or reuse its Telegram thread");
    reveal_strlit("Start a fresh Codex session");
    reveal_strlit("Start a fresh Codex session for this workspace");
    reveal_strlit("Rename the current workspace");
    reveal_strlit("Rename the current workspace from chat history");
    reveal_strlit("Show archived workspaces and restore");
    reveal_strlit("Show archived workspaces and restore one interactively");
    reveal_strlit("Repair the current workspace");
    reveal_strlit("Repair the current workspace's Codex session continuity");
    reveal_strlit("Launch a local session");
    reveal_strlit("Launch a local session for this workspace");
    reveal_strlit("Show the execution mode");
    reveal_strlit("Show the execution mode of this workspace");
    reveal_strlit("Set the execution mode");
    reveal_strlit("Set the execution mode of this workspace");
    reveal_strlit("Show the working sessions");
    reveal_strlit("Show the working sessions of this workspace");
    reveal_strlit("Show the records");
    reveal_strlit("Show the records of a working session");
    reveal_strlit("Interrupt the running turn");
    reveal_strlit("Interrupt the running turn of this workspace");
    reveal_strlit("Set this workspace thread to Plan");
    reveal_strlit("Set this workspace thread to Plan collaboration mode");
    reveal_strlit("Set this workspace thread to Default");
    reveal_strlit("Set this workspace thread to Default collaboration mode");
    assert("Archive the current workspace"@.is_prefix_of(Command::ArchiveWorkspace.purpose()));
}

} // verus!
