//! What a user reads of a workspace and its sessions, and what the arguments of commands mean.
use vstd::prelude::*;
use vstd::string::*;

use crate::execution_mode::ExecutionMode;
use crate::repository;
use crate::repository::{RecentCodexSessionEntry, SessionBinding, TranscriptMirrorOrigin};
use crate::runtime_control;
use crate::runtime_control::{HcodexLaunchConfigView, WorkspaceExecutionModeView};
use crate::runtime_protocol::{
    InterruptRunningTurnState, WorkingSessionRecordKind, WorkingSessionRecordView,
    WorkingSessionSummaryView,
};
use crate::telegram_runtime::title_sync;
use crate::text;
use crate::thread_state::ResolvedThreadState;
use crate::workspace_status::{SessionActivitySource, SessionCurrentStatus, WorkspaceStatusPhase};

verus! {

broadcast use vstd::string::group_string_axioms;

pub const TELEGRAM_SESSION_SUMMARY_LIMIT: usize = 5;

pub const TELEGRAM_SESSION_RECORD_LIMIT: usize = 12;

/// How long a turn has, in milliseconds, to end by itself once it was asked to.
pub const STOP_INTERRUPT_GRACE_MS: u64 = 5_000;

/// Which session a local client is launched with.
#[derive(Debug, Clone, PartialEq, Eq)]
pub enum LaunchCommandTarget {
    New,
    Current,
    Resume(String),
}

/// Which session a local client is launched with, as a value.
pub enum LaunchTargetModel {
    New,
    Current,
    Resume(Seq<char>),
}

impl View for LaunchCommandTarget {
    type V = LaunchTargetModel;

    open spec fn view(&self) -> LaunchTargetModel {
        match *self {
            LaunchCommandTarget::New => LaunchTargetModel::New,
            LaunchCommandTarget::Current => LaunchTargetModel::Current,
            LaunchCommandTarget::Resume(session_id) => LaunchTargetModel::Resume(session_id@),
        }
    }
}

/// An optional target as a value.
pub open spec fn opt_target(target: Option<LaunchCommandTarget>) -> Option<LaunchTargetModel> {
    match target {
        Some(target) => Some(target@),
        None => None,
    }
}

/// The target that an argument names: its first word, and for `resume` the session behind it.
pub open spec fn launch_target(argument: Seq<char>) -> Option<LaunchTargetModel> {
    let words = text::words(argument);
    if words.len() == 0 {
        None
    } else if words[0] == "new"@ {
        Some(LaunchTargetModel::New)
    } else if words[0] == "continue_current"@ {
        Some(LaunchTargetModel::Current)
    } else if words[0] == "resume"@ && words.len() > 1 {
        Some(LaunchTargetModel::Resume(words[1]))
    } else {
        None
    }
}

/// The target that an argument names.
pub fn parse_launch_command_target(argument: &str) -> (res: Option<LaunchCommandTarget>)
    ensures
        opt_target(res) == launch_target(argument@),
{
    let words = text::split_words(argument);
    proof {
        reveal_strlit("new");
        reveal_strlit("continue_current");
        reveal_strlit("resume");
        assert("new"@.len() == 3);
        assert("continue_current"@.len() == 16);
        assert("resume"@.len() == 6);
    }
    if words.len() == 0 {
        return None;
    }
    proof {
        assert(text::views(words@)[0] == words@[0]@);
    }
    if text::same_text(words[0].as_str(), "new") {
        Some(LaunchCommandTarget::New)
    } else if text::same_text(words[0].as_str(), "continue_current") {
        Some(LaunchCommandTarget::Current)
    } else if text::same_text(words[0].as_str(), "resume") && words.len() > 1 {
        proof {
            assert(text::views(words@)[1] == words@[1]@);
        }
        Some(LaunchCommandTarget::Resume(words[1].clone()))
    } else {
        None
    }
}

/// The mode that an argument names, whatever its case.
pub open spec fn execution_mode_named(argument: Seq<char>) -> Option<ExecutionMode> {
    let name = text::ascii_lowercase(text::trimmed(argument));
    if name == "full_auto"@ || name == "full-auto"@ {
        Some(ExecutionMode::FullAuto)
    } else if name == "yolo"@ {
        Some(ExecutionMode::Yolo)
    } else {
        None
    }
}

/// The mode that an argument names.
pub fn parse_execution_mode_argument(argument: &str) -> (res: Option<ExecutionMode>)
    ensures
        res == execution_mode_named(argument@),
{
    let name = text::to_ascii_lowercase(text::trim(argument));
    if text::same_text(name.as_str(), "full_auto") || text::same_text(name.as_str(), "full-auto") {
        Some(ExecutionMode::FullAuto)
    } else if text::same_text(name.as_str(), "yolo") {
        Some(ExecutionMode::Yolo)
    } else {
        None
    }
}

/// Whether an error says that a collaboration mode is not to be had, and no more: it begins with
/// the words that such errors begin with.
pub fn is_nonfatal_collaboration_mode_error(error: &str, unavailable_prefix: &str) -> (res: bool)
    ensures
        res == unavailable_prefix@.is_prefix_of(error@),
{
    text::starts_with(error, unavailable_prefix)
}

/// The causes of an error that say something.
pub open spec fn telling(causes: Seq<Seq<char>>) -> Seq<Seq<char>> {
    causes.filter(|cause: Seq<char>| !text::is_blank(cause))
}

/// The causes of an error in one line.
pub fn format_error_chain(causes: &Vec<String>) -> (res: String)
    ensures
        res@ == if telling(text::views(causes@)).len() == 0 {
            "unknown error"@
        } else {
            text::joined(telling(text::views(causes@)), " | "@)
        },
{
    let ghost all = text::views(causes@);
    let mut told: Vec<String> = Vec::new();
    let mut i: usize = 0;
    proof {
        assert(all.take(0) =~= Seq::empty());
        reveal(Seq::filter);
        assert(text::views(told@) =~= telling(all.take(0)));
    }
    while i < causes.len()
        invariant
            i <= causes.len(),
            all == text::views(causes@),
            text::views(told@) == telling(all.take(i as int)),
        decreases causes.len() - i,
    {
        proof {
            assert(all.take(i + 1) =~= all.take(i as int).push(all[i as int]));
            reveal(Seq::filter);
            assert(all.take(i + 1).drop_last() =~= all.take(i as int));
            assert(all[i as int] == causes@[i as int]@);
        }
        let cause = causes[i].as_str();
        if !text::trim(cause).is_empty() {
            text::push_line(&mut told, causes[i].clone());
        }
        i += 1;
    }
    proof {
        assert(all.take(i as int) =~= all);
    }
    if told.len() == 0 {
        "unknown error".to_owned()
    } else {
        text::join(&told, " | ")
    }
}

/// A line that names a value.
pub open spec fn field(name: Seq<char>, value: Seq<char>) -> Seq<char> {
    name + ": `"@ + value + "`"@
}

/// A line that names a value.
fn field_line(name: &str, value: &str) -> (res: String)
    ensures
        res@ == field(name@, value@),
{
    text::concat4(name, ": `", value, "`")
}

/// The name of a mode, where there is one.
pub open spec fn mode_name(mode: Option<ExecutionMode>) -> Seq<char> {
    match mode {
        Some(mode) => mode.name(),
        None => "none"@,
    }
}

/// The name of a mode, where there is one.
fn mode_text(mode: Option<ExecutionMode>) -> (res: &'static str)
    ensures
        res@ == mode_name(mode),
{
    match mode {
        Some(mode) => mode.as_str(),
        None => "none",
    }
}

/// What is known of a workspace thread.
#[derive(Debug)]
pub struct ThreadInfo {
    pub thread_key: String,
    pub session: Option<SessionBinding>,
    pub state: ResolvedThreadState,
    /// What the thread is busy with, if it is.
    pub gate: Option<SessionCurrentStatus>,
    /// The mode of the workspace, as far as it could be read.
    pub workspace_execution_mode: Option<ExecutionMode>,
    /// What the bound session last reported.
    pub snapshot: Option<SessionCurrentStatus>,
    /// Whether a local client is at work on the thread.
    pub has_live_tui_session: bool,
}

impl ThreadInfo {
    /// The workspace, where the thread is bound to one.
    pub open spec fn workspace(self) -> Option<Seq<char>> {
        match self.session {
            Some(session) => text::opt_view(session.workspace_cwd),
            None => None,
        }
    }

    /// The session of the binding.
    pub open spec fn bound(self) -> Option<Seq<char>> {
        runtime_control::bound_session(repository::opt_binding(self.session))
    }

    /// Whether a local client is at work on the workspace.
    pub open spec fn is_live(self) -> bool {
        self.workspace() is Some && self.has_live_tui_session
    }

    /// What the bound session last reported, where there is one in a workspace.
    pub open spec fn current(self) -> Option<SessionCurrentStatus> {
        if self.workspace() is Some && self.bound() is Some {
            self.snapshot
        } else {
            None
        }
    }

    /// The lines that tell which thread it is, and its modes.
    pub open spec fn place_lines(self) -> Seq<Seq<char>> {
        seq![
            field("thread_key"@, self.thread_key@),
            field("workspace"@, text::or_text(self.workspace(), "unbound"@)),
            field(
                "workspace_execution_mode"@,
                mode_name(
                    if self.workspace() is Some {
                        self.workspace_execution_mode
                    } else {
                        None
                    },
                ),
            ),
            field(
                "current_execution_mode"@,
                mode_name(
                    match self.session {
                        Some(session) => session.current_execution_mode,
                        None => None,
                    },
                ),
            ),
            field(
                "current_collaboration_mode"@,
                match self.session {
                    Some(session) => match session.current_collaboration_mode {
                        Some(mode) => mode.name(),
                        None => "default"@,
                    },
                    None => "default"@,
                },
            ),
        ]
    }

    /// The lines that tell its sessions.
    pub open spec fn session_lines(self) -> Seq<Seq<char>> {
        seq![
            field("current_codex_thread_id"@, text::or_text(self.bound(), "none"@)),
            field(
                "tui_active_codex_thread_id"@,
                match self.session {
                    Some(session) => if self.is_live() {
                        text::or_text(text::opt_view(session.tui_active_codex_thread_id), "none"@)
                    } else {
                        "none"@
                    },
                    None => "none"@,
                },
            ),
            field(
                "adoption_state"@,
                match self.session {
                    Some(session) => if session.tui_session_adoption_pending && self.is_live() {
                        "pending"@
                    } else {
                        "none"@
                    },
                    None => "none"@,
                },
            ),
        ]
    }

    /// The lines that tell its state.
    pub open spec fn state_lines(self) -> Seq<Seq<char>> {
        seq![
            field("lifecycle_status"@, self.state.lifecycle_status.name()),
            field("binding_status"@, self.state.binding_status.name()),
            field("run_status"@, self.state.run_status.name()),
            field(
                "title_suffix"@,
                title_sync::suffix_label(
                    self.state.binding_status == crate::thread_state::BindingStatus::Broken,
                ),
            ),
            field("current_phase"@, phase_name(self.current())),
            field("current_owner"@, owner_name(self.current())),
            field(
                "gate_session_id"@,
                match self.gate {
                    Some(gate) => gate.session_id@,
                    None => "none"@,
                },
            ),
            field("gate_phase"@, phase_name(self.gate)),
            field("gate_owner"@, owner_name(self.gate)),
        ]
    }

    /// The lines that tell what is known.
    pub open spec fn lines(self) -> Seq<Seq<char>> {
        self.place_lines() + self.session_lines() + self.state_lines()
    }
}

/// The phase of a report, where there is one.
pub open spec fn phase_name(snapshot: Option<SessionCurrentStatus>) -> Seq<char> {
    match snapshot {
        Some(snapshot) => snapshot.phase.identifier(),
        None => "none"@,
    }
}

/// Whose activity a report is about, where there is one.
pub open spec fn owner_name(snapshot: Option<SessionCurrentStatus>) -> Seq<char> {
    match snapshot {
        Some(snapshot) => snapshot.activity_source.identifier(),
        None => "none"@,
    }
}

fn phase_text(snapshot: &Option<SessionCurrentStatus>) -> (res: &'static str)
    ensures
        res@ == phase_name(*snapshot),
{
    match snapshot {
        Some(snapshot) => snapshot.phase.as_identifier(),
        None => "none",
    }
}

fn owner_text(snapshot: &Option<SessionCurrentStatus>) -> (res: &'static str)
    ensures
        res@ == owner_name(*snapshot),
{
    match snapshot {
        Some(snapshot) => snapshot.activity_source.as_identifier(),
        None => "none",
    }
}

fn push_place_lines(lines: &mut Vec<String>, info: &ThreadInfo)
    ensures
        text::views(final(lines)@) == text::views(old(lines)@) + info.place_lines(),
{
    let session = match &info.session {
        Some(session) => Some(session),
        None => None,
    };
    let workspace = match session {
        Some(session) => text::as_deref(&session.workspace_cwd),
        None => None,
    };
    text::push_line(lines, field_line("thread_key", info.thread_key.as_str()));
    text::push_line(lines, field_line("workspace", text::text_or(workspace, "unbound")));
    let workspace_mode = if workspace.is_some() {
        info.workspace_execution_mode
    } else {
        None
    };
    text::push_line(lines, field_line("workspace_execution_mode", mode_text(workspace_mode)));
    let current_mode = match session {
        Some(session) => session.current_execution_mode,
        None => None,
    };
    text::push_line(lines, field_line("current_execution_mode", mode_text(current_mode)));
    let collaboration_mode = match session {
        Some(session) => match session.current_collaboration_mode {
            Some(mode) => mode.as_str(),
            None => "default",
        },
        None => "default",
    };
    text::push_line(lines, field_line("current_collaboration_mode", collaboration_mode));
    proof {
        assert(text::views(lines@) =~= text::views(old(lines)@) + info.place_lines());
    }
}

fn push_session_lines(lines: &mut Vec<String>, info: &ThreadInfo)
    ensures
        text::views(final(lines)@) == text::views(old(lines)@) + info.session_lines(),
{
    let session = match &info.session {
        Some(session) => Some(session),
        None => None,
    };
    let workspace = match session {
        Some(session) => text::as_deref(&session.workspace_cwd),
        None => None,
    };
    let bound = runtime_control::current_bound_session_id(session);
    let live = workspace.is_some() && info.has_live_tui_session;
    text::push_line(
        lines,
        field_line("current_codex_thread_id", text::text_or(bound, "none")),
    );
    let tui_session = match session {
        Some(session) => if live {
            text::text_or(text::as_deref(&session.tui_active_codex_thread_id), "none")
        } else {
            "none"
        },
        None => "none",
    };
    text::push_line(lines, field_line("tui_active_codex_thread_id", tui_session));
    let adoption = match session {
        Some(session) => if session.tui_session_adoption_pending && live {
            "pending"
        } else {
            "none"
        },
        None => "none",
    };
    text::push_line(lines, field_line("adoption_state", adoption));
    proof {
        assert(text::views(lines@) =~= text::views(old(lines)@) + info.session_lines());
    }
}

fn push_state_lines(lines: &mut Vec<String>, info: &ThreadInfo)
    ensures
        text::views(final(lines)@) == text::views(old(lines)@) + info.state_lines(),
{
    let session = match &info.session {
        Some(session) => Some(session),
        None => None,
    };
    let workspace = match session {
        Some(session) => text::as_deref(&session.workspace_cwd),
        None => None,
    };
    let bound = runtime_control::current_bound_session_id(session);
    let has_current = workspace.is_some() && bound.is_some();
    text::push_line(
        lines,
        field_line("lifecycle_status", info.state.lifecycle_status.as_str()),
    );
    text::push_line(lines, field_line("binding_status", info.state.binding_status.as_str()));
    text::push_line(lines, field_line("run_status", info.state.run_status.as_str()));
    text::push_line(
        lines,
        field_line("title_suffix", title_sync::topic_title_suffix_label(info.state.is_broken())),
    );
    let (phase, owner) = if has_current {
        (phase_text(&info.snapshot), owner_text(&info.snapshot))
    } else {
        ("none", "none")
    };
    text::push_line(lines, field_line("current_phase", phase));
    text::push_line(lines, field_line("current_owner", owner));
    let gate_session = match &info.gate {
        Some(gate) => gate.session_id.as_str(),
        None => "none",
    };
    text::push_line(lines, field_line("gate_session_id", gate_session));
    text::push_line(lines, field_line("gate_phase", phase_text(&info.gate)));
    text::push_line(lines, field_line("gate_owner", owner_text(&info.gate)));
    proof {
        assert(text::views(lines@) =~= text::views(old(lines)@) + info.state_lines());
    }
}

/// What is known of a workspace thread, in words.
pub fn render_thread_info(info: &ThreadInfo) -> (res: String)
    ensures
        res@ == text::joined(info.lines(), "\n"@),
{
    let mut lines: Vec<String> = Vec::new();
    push_place_lines(&mut lines, info);
    push_session_lines(&mut lines, info);
    push_state_lines(&mut lines, info);
    proof {
        assert(text::views(lines@) =~= info.lines());
    }
    text::join(&lines, "\n")
}

/// The lines that tell the mode of a workspace.
pub open spec fn mode_view_lines(view: WorkspaceExecutionModeView) -> Seq<Seq<char>> {
    seq![
        field("workspace_execution_mode"@, view.workspace_execution_mode.name()),
        field("current_execution_mode"@, mode_name(view.current_execution_mode)),
        field(
            "current_approval_policy"@,
            text::or_text(text::opt_view(view.current_approval_policy), "none"@),
        ),
        field(
            "current_sandbox_policy"@,
            text::or_text(text::opt_view(view.current_sandbox_policy), "none"@),
        ),
        field(
            "mode_drift"@,
            if view.mode_drift {
                "yes"@
            } else {
                "no"@
            },
        ),
        ""@,
        "Use `/set_workspace_execution_mode full_auto` or `/set_workspace_execution_mode yolo`."@,
    ]
}

/// The mode of a workspace, in words.
pub fn render_workspace_execution_mode_view(view: &WorkspaceExecutionModeView) -> (res: String)
    ensures
        res@ == text::joined(mode_view_lines(*view), "\n"@),
{
    let mut lines: Vec<String> = Vec::new();
    text::push_line(
        &mut lines,
        field_line("workspace_execution_mode", view.workspace_execution_mode.as_str()),
    );
    text::push_line(
        &mut lines,
        field_line("current_execution_mode", mode_text(view.current_execution_mode)),
    );
    text::push_line(
        &mut lines,
        field_line(
            "current_approval_policy",
            text::text_or(text::as_deref(&view.current_approval_policy), "none"),
        ),
    );
    text::push_line(
        &mut lines,
        field_line(
            "current_sandbox_policy",
            text::text_or(text::as_deref(&view.current_sandbox_policy), "none"),
        ),
    );
    let drift = if view.mode_drift {
        "yes"
    } else {
        "no"
    };
    text::push_line(&mut lines, field_line("mode_drift", drift));
    text::push_line(&mut lines, "".to_owned());
    text::push_line(
        &mut lines,
        "Use `/set_workspace_execution_mode full_auto` or `/set_workspace_execution_mode yolo`.".to_owned(),
    );
    proof {
        assert(text::views(lines@) =~= mode_view_lines(*view));
    }
    text::join(&lines, "\n")
}

/// The sessions that were worked on last.
pub open spec fn recent_ids(recent: Seq<RecentCodexSessionEntry>) -> Seq<Seq<char>> {
    recent.map_values(|entry: RecentCodexSessionEntry| entry.session_id@)
}

/// The lines that tell how a local client is launched.
pub open spec fn launch_usage_lines(config: HcodexLaunchConfigView) -> Seq<Seq<char>> {
    seq![
        "Usage: `/launch_local_session new`, `/launch_local_session continue_current`, or `/launch_local_session resume <session_id>`."@,
        field(
            "current_codex_thread_id"@,
            text::or_text(text::opt_view(config.current_codex_thread_id), "none"@),
        ),
        field(
            "recent_sessions"@,
            if config.recent_codex_sessions@.len() == 0 {
                "none"@
            } else {
                text::joined(recent_ids(config.recent_codex_sessions@), ", "@)
            },
        ),
    ]
}

fn recent_text(recent: &Vec<RecentCodexSessionEntry>) -> (res: String)
    ensures
        res@ == if recent@.len() == 0 {
            "none"@
        } else {
            text::joined(recent_ids(recent@), ", "@)
        },
{
    if recent.len() == 0 {
        return "none".to_owned();
    }
    let ghost all = recent_ids(recent@);
    let mut ids: Vec<String> = Vec::new();
    let mut i: usize = 0;
    while i < recent.len()
        invariant
            i <= recent.len(),
            all == recent_ids(recent@),
            text::views(ids@) =~= all.take(i as int),
        decreases recent.len() - i,
    {
        text::push_line(&mut ids, recent[i].session_id.clone());
        i += 1;
    }
    proof {
        assert(all.take(i as int) =~= all);
    }
    text::join(&ids, ", ")
}

/// How a local client is launched, in words.
pub fn render_launch_usage(config: &HcodexLaunchConfigView) -> (res: String)
    ensures
        res@ == text::joined(launch_usage_lines(*config), "\n"@),
{
    let recent = recent_text(&config.recent_codex_sessions);
    let mut lines: Vec<String> = Vec::new();
    text::push_line(
        &mut lines,
        "Usage: `/launch_local_session new`, `/launch_local_session continue_current`, or `/launch_local_session resume <session_id>`.".to_owned(),
    );
    text::push_line(
        &mut lines,
        field_line(
            "current_codex_thread_id",
            text::text_or(text::as_deref(&config.current_codex_thread_id), "none"),
        ),
    );
    text::push_line(&mut lines, field_line("recent_sessions", recent.as_str()));
    proof {
        assert(text::views(lines@) =~= launch_usage_lines(*config));
    }
    text::join(&lines, "\n")
}

/// The names of where entries came from.
pub open spec fn origin_names(origins: Seq<TranscriptMirrorOrigin>) -> Seq<Seq<char>> {
    origins.map_values(|origin: TranscriptMirrorOrigin| origin.name())
}

/// What a session is doing, as a list shows it.
pub open spec fn run_label(run_status: Seq<char>, run_phase: Seq<char>) -> Seq<char> {
    if run_status == "running"@ && run_phase == "turn_finalizing"@ {
        "running/finalizing"@
    } else {
        run_status
    }
}

/// The line of a session in a list.
pub open spec fn summary_line(
    current: Option<Seq<char>>,
    summary: WorkingSessionSummaryView,
) -> Seq<char> {
    "- `"@ + summary.session_id@ + "`"@ + (if current == Some(summary.session_id@) {
        " current"@
    } else {
        ""@
    }) + " | "@ + run_label(summary.run_status@, summary.run_phase@) + " | records="@
        + text::decimal(summary.record_count as nat) + " | tools="@ + text::decimal(
        summary.tool_use_count as nat,
    ) + " | final="@ + (if summary.has_final_reply {
        "yes"@
    } else {
        "no"@
    }) + " | origins="@ + (if summary.origins_seen@.len() == 0 {
        "none"@
    } else {
        text::joined(origin_names(summary.origins_seen@), ","@)
    })
}

/// The lines of a list of sessions: the first of them, and how to see more.
pub open spec fn summary_lines(
    current: Option<Seq<char>>,
    summaries: Seq<WorkingSessionSummaryView>,
) -> Seq<Seq<char>> {
    let shown = if summaries.len() > TELEGRAM_SESSION_SUMMARY_LIMIT {
        summaries.take(TELEGRAM_SESSION_SUMMARY_LIMIT as int)
    } else {
        summaries
    };
    seq!["Recent working sessions:"@] + shown.map_values(
        |summary: WorkingSessionSummaryView| summary_line(current, summary),
    ) + seq!["Use `/session_log <session_id>` for detailed records."@]
}

fn origins_text(origins: &Vec<TranscriptMirrorOrigin>) -> (res: String)
    ensures
        res@ == if origins@.len() == 0 {
            "none"@
        } else {
            text::joined(origin_names(origins@), ","@)
        },
{
    if origins.len() == 0 {
        return "none".to_owned();
    }
    let ghost all = origin_names(origins@);
    let mut names: Vec<String> = Vec::new();
    let mut i: usize = 0;
    while i < origins.len()
        invariant
            i <= origins.len(),
            all == origin_names(origins@),
            text::views(names@) =~= all.take(i as int),
        decreases origins.len() - i,
    {
        text::push_line(&mut names, origins[i].as_str().to_owned());
        i += 1;
    }
    proof {
        assert(all.take(i as int) =~= all);
    }
    text::join(&names, ",")
}

fn summary_text(current: Option<&str>, summary: &WorkingSessionSummaryView) -> (res: String)
    ensures
        res@ == summary_line(text::opt_str_view(current), *summary),
{
    let mark = if text::same_opt_text(current, Some(summary.session_id.as_str())) {
        " current"
    } else {
        ""
    };
    let running = text::same_text(summary.run_status.as_str(), "running");
    let label = if running && text::same_text(summary.run_phase.as_str(), "turn_finalizing") {
        "running/finalizing"
    } else {
        summary.run_status.as_str()
    };
    let records = text::decimal_text(summary.record_count as u64);
    let tools = text::decimal_text(summary.tool_use_count as u64);
    let done = if summary.has_final_reply {
        "yes"
    } else {
        "no"
    };
    let origins = origins_text(&summary.origins_seen);
    let mut line = text::concat5("- `", summary.session_id.as_str(), "`", mark, " | ");
    line.push_str(label);
    line.push_str(" | records=");
    line.push_str(records.as_str());
    line.push_str(" | tools=");
    line.push_str(tools.as_str());
    line.push_str(" | final=");
    line.push_str(done);
    line.push_str(" | origins=");
    line.push_str(origins.as_str());
    line
}

/// A list of sessions, in words.
pub fn render_working_sessions(
    binding: &SessionBinding,
    summaries: &Vec<WorkingSessionSummaryView>,
) -> (res: String)
    ensures
        res@ == if summaries@.len() == 0 {
            "No working sessions recorded yet."@
        } else {
            text::joined(
                summary_lines(text::opt_view(binding.current_codex_thread_id), summaries@),
                "\n"@,
            )
        },
{
    if summaries.len() == 0 {
        return "No working sessions recorded yet.".to_owned();
    }
    let current = text::as_deref(&binding.current_codex_thread_id);
    let ghost all = summary_lines(text::opt_view(binding.current_codex_thread_id), summaries@);
    let shown: usize = if summaries.len() > TELEGRAM_SESSION_SUMMARY_LIMIT {
        TELEGRAM_SESSION_SUMMARY_LIMIT
    } else {
        summaries.len()
    };
    let mut lines: Vec<String> = Vec::new();
    text::push_line(&mut lines, "Recent working sessions:".to_owned());
    proof {
        assert(text::views(lines@) =~= all.take(1));
    }
    let mut i: usize = 0;
    while i < shown
        invariant
            i <= shown <= summaries.len(),
            all == summary_lines(text::opt_view(binding.current_codex_thread_id), summaries@),
            all.len() == shown + 2,
            text::opt_str_view(current) == text::opt_view(binding.current_codex_thread_id),
            text::views(lines@) =~= all.take(i + 1),
        decreases shown - i,
    {
        let line = summary_text(current, &summaries[i]);
        proof {
            assert(all[i + 1] == line@);
        }
        text::push_line(&mut lines, line);
        i += 1;
    }
    text::push_line(&mut lines, "Use `/session_log <session_id>` for detailed records.".to_owned());
    proof {
        assert(text::views(lines@) =~= all);
    }
    text::join(&lines, "\n")
}

/// The name of a kind of record.
pub open spec fn kind_name(kind: WorkingSessionRecordKind) -> Seq<char> {
    match kind {
        WorkingSessionRecordKind::UserPrompt => "user_prompt"@,
        WorkingSessionRecordKind::AssistantFinal => "assistant_final"@,
        WorkingSessionRecordKind::ProcessPlan => "process_plan"@,
        WorkingSessionRecordKind::ProcessTool => "process_tool"@,
        WorkingSessionRecordKind::Error => "error"@,
    }
}

/// The line of a record.
pub open spec fn record_line(record: WorkingSessionRecordView) -> Seq<char> {
    "- "@ + record.timestamp@ + " | "@ + kind_name(record.kind) + " | "@ + text::replaced(
        record.summary@,
        '`',
        "'"@,
    )
}

/// The lines of the records of a session: the last of them, in their order.
pub open spec fn record_lines(
    session_id: Seq<char>,
    records: Seq<WorkingSessionRecordView>,
) -> Seq<Seq<char>> {
    let shown = if records.len() > TELEGRAM_SESSION_RECORD_LIMIT {
        records.skip(records.len() - TELEGRAM_SESSION_RECORD_LIMIT)
    } else {
        records
    };
    seq!["Recent records for session `"@ + session_id + "`:"@] + shown.map_values(
        |record: WorkingSessionRecordView| record_line(record),
    )
}

fn record_text(record: &WorkingSessionRecordView) -> (res: String)
    ensures
        res@ == record_line(*record),
{
    let kind = match record.kind {
        WorkingSessionRecordKind::UserPrompt => "user_prompt",
        WorkingSessionRecordKind::AssistantFinal => "assistant_final",
        WorkingSessionRecordKind::ProcessPlan => "process_plan",
        WorkingSessionRecordKind::ProcessTool => "process_tool",
        WorkingSessionRecordKind::Error => "error",
    };
    let summary = text::replace_char(record.summary.as_str(), '`', "'");
    let mut line = text::concat5("- ", record.timestamp.as_str(), " | ", kind, " | ");
    line.push_str(summary.as_str());
    line
}

/// The records of a session, in words.
pub fn render_working_session_records(
    session_id: &str,
    records: &Vec<WorkingSessionRecordView>,
) -> (res: String)
    ensures
        res@ == if records@.len() == 0 {
            "No records found for session `"@ + session_id@ + "`."@
        } else {
            text::joined(record_lines(session_id@, records@), "\n"@)
        },
{
    if records.len() == 0 {
        return text::concat3("No records found for session `", session_id, "`.");
    }
    let ghost all = record_lines(session_id@, records@);
    let first: usize = if records.len() > TELEGRAM_SESSION_RECORD_LIMIT {
        records.len() - TELEGRAM_SESSION_RECORD_LIMIT
    } else {
        0
    };
    let mut lines: Vec<String> = Vec::new();
    text::push_line(
        &mut lines,
        text::concat3("Recent records for session `", session_id, "`:"),
    );
    proof {
        assert(text::views(lines@) =~= all.take(1));
    }
    let mut i: usize = first;
    while i < records.len()
        invariant
            first <= i <= records.len(),
            first == (if records.len() > TELEGRAM_SESSION_RECORD_LIMIT {
                records.len() - TELEGRAM_SESSION_RECORD_LIMIT
            } else {
                0
            }),
            all == record_lines(session_id@, records@),
            all.len() == records.len() - first + 1,
            text::views(lines@) =~= all.take(i - first + 1),
        decreases records.len() - i,
    {
        let line = record_text(&records[i]);
        proof {
            assert(all[i - first + 1] == line@);
        }
        text::push_line(&mut lines, line);
        i += 1;
    }
    proof {
        assert(all.take(i - first + 1) =~= all);
    }
    text::join(&lines, "\n")
}

/// Whether a turn was asked to end before.
pub open spec fn stop_text(already: bool, owner: Seq<char>, session_id: Seq<char>) -> Seq<char> {
    (if already {
        "Interrupt was already requested for "@
    } else {
        "Interrupt requested for "@
    }) + owner + " session `"@ + session_id + "`. Wait for the current turn to settle."@
}

fn render_stop(already: bool, owner: &str, session_id: &str) -> (res: String)
    ensures
        res@ == stop_text(already, owner@, session_id@),
{
    let start = if already {
        "Interrupt was already requested for "
    } else {
        "Interrupt requested for "
    };
    text::concat5(start, owner, " session `", session_id, "`. Wait for the current turn to settle.")
}

/// What a user is told whose turn is asked to end while it runs.
pub open spec fn stop_started_text(snapshot: SessionCurrentStatus) -> Seq<char> {
    stop_text(
        snapshot.phase == WorkspaceStatusPhase::TurnFinalizing,
        match snapshot.activity_source {
            SessionActivitySource::Tui => "shared TUI"@,
            SessionActivitySource::ManagedRuntime => "Telegram"@,
        },
        snapshot.session_id@,
    )
}

/// What a user is told whose turn is asked to end while it runs.
pub fn render_stop_started_message(snapshot: &SessionCurrentStatus) -> (res: String)
    ensures
        res@ == stop_started_text(*snapshot),
{
    let owner = match snapshot.activity_source {
        SessionActivitySource::Tui => "shared TUI",
        SessionActivitySource::ManagedRuntime => "Telegram",
    };
    render_stop(
        snapshot.phase == WorkspaceStatusPhase::TurnFinalizing,
        owner,
        snapshot.session_id.as_str(),
    )
}

/// What a user is told of a turn that was asked to end.
pub open spec fn stop_action_text(session_id: Seq<char>, state: InterruptRunningTurnState) -> Seq<
    char,
> {
    stop_text(state == InterruptRunningTurnState::AlreadyRequested, "Telegram"@, session_id)
}

/// What a user is told of a turn that was asked to end.
pub fn render_stop_action_message(session_id: &str, state: InterruptRunningTurnState) -> (res: String)
    ensures
        res@ == stop_action_text(session_id@, state),
{
    render_stop(state == InterruptRunningTurnState::AlreadyRequested, "Telegram", session_id)
}

/// What is put on record once a turn was ended because it did not end by itself.
pub fn stop_fallback_log(session_id: &str, turn_id: &str) -> (res: String)
    ensures
        res@ == "Interrupted session `"@ + session_id@ + "` turn `"@ + turn_id@
            + "` after `/stop` fallback cleanup."@,
{
    text::concat5(
        "Interrupted session `",
        session_id,
        "` turn `",
        turn_id,
        "` after `/stop` fallback cleanup.",
    )
}

/// A field is read off its line: the line begins with the name, and two lines of one name are alike
/// only if they show the same value.
pub proof fn law_fields_show_their_value(name: Seq<char>, first: Seq<char>, second: Seq<char>)
    ensures
        name.is_prefix_of(field(name, first)),
        text::occurs_at(field(name, first), first, name.len() as int + 3),
        field(name, first).last() == '`',
        field(name, first) == field(name, second) <==> first == second,
{
    reveal_strlit(": `");
    reveal_strlit("`");
    let here = field(name, first);
    let there = field(name, second);
    let start: int = name.len() as int + 3;
    assert(name =~= here.subrange(0, name.len() as int));
    assert(here.subrange(start, start + first.len()) =~= first);
    assert(there.subrange(start, start + second.len()) =~= second);
    if here == there {
        assert(here.len() == start + first.len() + 1 && there.len() == start + second.len() + 1);
    }
}

/// What is known of a thread is shown under its own name, a line for each: the binding's workspace,
/// modes and session, the client that is at work on it, its state, and what reports say.
pub proof fn law_thread_info_shows_what_is_known(info: ThreadInfo)
    ensures
        info.lines().len() == 17,
        info.lines()[0] == field("thread_key"@, info.thread_key@),
        info.lines()[1] == field(
            "workspace"@,
            match info.session {
                Some(SessionBinding { workspace_cwd: Some(workspace), .. }) => workspace@,
                _ => "unbound"@,
            },
        ),
        info.session matches Some(session) ==> (session.workspace_cwd is Some
            ==> info.lines()[2] == field(
            "workspace_execution_mode"@,
            match info.workspace_execution_mode {
                Some(mode) => mode.name(),
                None => "none"@,
            },
        )) && info.lines()[3] == field(
            "current_execution_mode"@,
            match session.current_execution_mode {
                Some(mode) => mode.name(),
                None => "none"@,
            },
        ) && info.lines()[4] == field(
            "current_collaboration_mode"@,
            match session.current_collaboration_mode {
                Some(mode) => mode.name(),
                None => "default"@,
            },
        ),
        info.session is None ==> info.lines()[2] == field("workspace_execution_mode"@, "none"@)
            && info.lines()[3] == field("current_execution_mode"@, "none"@) && info.lines()[4]
            == field("current_collaboration_mode"@, "default"@),
        info.lines()[8] == field("lifecycle_status"@, info.state.lifecycle_status.name()),
        info.lines()[9] == field("binding_status"@, info.state.binding_status.name()),
        info.lines()[10] == field("run_status"@, info.state.run_status.name()),
        info.lines()[14] == field(
            "gate_session_id"@,
            match info.gate {
                Some(gate) => gate.session_id@,
                None => "none"@,
            },
        ),
        info.lines()[15] == field(
            "gate_phase"@,
            match info.gate {
                Some(gate) => gate.phase.identifier(),
                None => "none"@,
            },
        ),
        info.lines()[16] == field(
            "gate_owner"@,
            match info.gate {
                Some(gate) => gate.activity_source.identifier(),
                None => "none"@,
            },
        ),
{
}

/// The session of a local client, and whether its adoption is pending, are shown only while such a
/// client is at work on a bound workspace.
pub proof fn law_clients_are_shown_while_they_work(info: ThreadInfo)
    ensures
        info.session matches Some(session) ==> ({
            let live = session.workspace_cwd is Some && info.has_live_tui_session;
            &&& info.lines()[6] == field(
                "tui_active_codex_thread_id"@,
                match session.tui_active_codex_thread_id {
                    Some(id) => if live {
                        id@
                    } else {
                        "none"@
                    },
                    None => "none"@,
                },
            )
            &&& info.lines()[7] == field(
                "adoption_state"@,
                if live && session.tui_session_adoption_pending {
                    "pending"@
                } else {
                    "none"@
                },
            )
        }),
        info.session is None ==> info.lines()[6] == field("tui_active_codex_thread_id"@, "none"@)
            && info.lines()[7] == field("adoption_state"@, "none"@),
{
}

/// What the bound session last reported is shown only of a session that is bound in a workspace.
pub proof fn law_reports_are_those_of_the_bound_session(info: ThreadInfo)
    ensures
        info.session is None ==> info.lines()[12] == field("current_phase"@, "none"@)
            && info.lines()[13] == field("current_owner"@, "none"@),
        info.session matches Some(session) ==> (session.workspace_cwd is None
            || session.current_codex_thread_id is None ==> info.lines()[12] == field(
            "current_phase"@,
            "none"@,
        ) && info.lines()[13] == field("current_owner"@, "none"@)),
        info.session matches Some(session) ==> (session.workspace_cwd is Some && (
        session.current_codex_thread_id matches Some(id) && !text::is_blank(id@)) ==> (
        info.snapshot matches Some(snapshot) ==> info.lines()[12] == field(
            "current_phase"@,
            snapshot.phase.identifier(),
        ) && info.lines()[13] == field("current_owner"@, snapshot.activity_source.identifier()))),
{
}

/// The session that an argument names is the word behind `resume`; every other first word than the
/// three that there are names nothing.
pub proof fn law_launch_targets_go_by_their_words(argument: Seq<char>)
    ensures
        ({
            let words = text::words(argument);
            &&& launch_target(argument) is Some ==> words.len() > 0 && (words[0] == "new"@
                || words[0] == "continue_current"@ || words[0] == "resume"@)
            &&& words.len() > 0 && words[0] == "new"@ ==> launch_target(argument) == Some(
                LaunchTargetModel::New,
            )
            &&& words.len() > 0 && words[0] == "continue_current"@ ==> launch_target(argument)
                == Some(LaunchTargetModel::Current)
            &&& words.len() > 1 && words[0] == "resume"@ ==> launch_target(argument) == Some(
                LaunchTargetModel::Resume(words[1]),
            )
            &&& words.len() == 1 && words[0] == "resume"@ ==> launch_target(argument) is None
        }),
{
    reveal_strlit("new");
    reveal_strlit("continue_current");
    reveal_strlit("resume");
    assert("new"@.len() == 3 && "continue_current"@.len() == 16 && "resume"@.len() == 6);
}

/// A mode goes by its own name, in whatever case and with whatever blanks around it, and by no other
/// word; the longer name may be written with a hyphen.
pub proof fn law_modes_are_named_as_they_are_called(argument: Seq<char>)
    ensures
        ({
            let name = text::ascii_lowercase(text::trimmed(argument));
            &&& name == ExecutionMode::FullAuto.name() || name == "full-auto"@
                <==> execution_mode_named(argument) == Some(ExecutionMode::FullAuto)
            &&& name == ExecutionMode::Yolo.name() <==> execution_mode_named(argument) == Some(
                ExecutionMode::Yolo,
            )
        }),
{
    reveal_strlit("full_auto");
    reveal_strlit("full-auto");
    reveal_strlit("yolo");
    assert("full_auto"@.len() == 9 && "full-auto"@.len() == 9 && "yolo"@.len() == 4);
}

/// A list of sessions shows the first of them, at most five and in their order, between its heading
/// and a hint.
pub proof fn law_lists_show_the_first_sessions(
    current: Option<Seq<char>>,
    summaries: Seq<WorkingSessionSummaryView>,
    i: int,
)
    ensures
        summary_lines(current, summaries).len() == 2 + if summaries.len() > 5 {
            5
        } else {
            summaries.len() as int
        },
        0 <= i < summaries.len() && i < 5 ==> summary_lines(current, summaries)[i + 1]
            == summary_line(current, summaries[i]),
{
}

/// The line of a session begins with the session, marks the current one and no other, and counts its
/// records and its uses of tools.
pub proof fn law_lines_of_sessions_show_them(
    current: Option<Seq<char>>,
    summary: WorkingSessionSummaryView,
)
    ensures
        ({
            let line = summary_line(current, summary);
            let named = "- `"@ + summary.session_id@ + "`"@;
            let records = " | records="@ + text::decimal(summary.record_count as nat) + " | tools="@
                + text::decimal(summary.tool_use_count as nat) + " | final="@;
            &&& named.is_prefix_of(line)
            &&& current == Some(summary.session_id@) <==> (named + " current |"@).is_prefix_of(line)
            &&& current != Some(summary.session_id@) ==> (named + " | "@ + run_label(
                summary.run_status@,
                summary.run_phase@,
            ) + records + if summary.has_final_reply {
                "yes"@
            } else {
                "no"@
            }).is_prefix_of(line)
        }),
{
    reveal_strlit("- `");
    reveal_strlit("`");
    reveal_strlit(" current");
    reveal_strlit(" current |");
    reveal_strlit(" | ");
    reveal_strlit("");
    let line = summary_line(current, summary);
    let named = "- `"@ + summary.session_id@ + "`"@;
    let marked = named + " current |"@;
    let run = run_label(summary.run_status@, summary.run_phase@);
    let records = " | records="@ + text::decimal(summary.record_count as nat) + " | tools="@
        + text::decimal(summary.tool_use_count as nat) + " | final="@;
    assert(named.is_prefix_of(line));
    if current == Some(summary.session_id@) {
        assert(marked =~= line.subrange(0, marked.len() as int));
    } else {
        let at = named.len() as int;
        assert(line[at + 1] == '|');
        assert(marked[at + 1] == 'c');
        let shown = named + " | "@ + run + records + if summary.has_final_reply {
            "yes"@
        } else {
            "no"@
        };
        assert(shown =~= line.subrange(0, shown.len() as int));
    }
}

/// A session that winds its turn up is shown as such; of every other the list shows what it is
/// doing.
pub proof fn law_sessions_that_finish_are_shown_so(run_status: Seq<char>, run_phase: Seq<char>)
    ensures
        run_label("running"@, "turn_finalizing"@) == "running/finalizing"@,
        run_status != "running"@ ==> run_label(run_status, run_phase) == run_status,
        run_phase != "turn_finalizing"@ ==> run_label(run_status, run_phase) == run_status,
{
}

/// The log of a session shows its last records, at most twelve and in their order, behind a heading
/// that names the session.
pub proof fn law_logs_show_the_last_records(
    session_id: Seq<char>,
    records: Seq<WorkingSessionRecordView>,
    back: int,
)
    ensures
        ({
            let lines = record_lines(session_id, records);
            &&& lines.len() == 1 + if records.len() > 12 {
                12
            } else {
                records.len() as int
            }
            &&& text::occurs_at(lines[0], session_id, 28)
            &&& 0 < back <= records.len() && back <= 12 ==> lines[lines.len() - back] == record_line(
                records[records.len() - back],
            )
        }),
{
    reveal_strlit("Recent records for session `");
    let heading = record_lines(session_id, records)[0];
    assert(heading.subrange(28, 28 + session_id.len() as int) =~= session_id);
}

/// The line of a record says when it was made, of which kind it is, and what it is about.
pub proof fn law_lines_of_records_show_them(record: WorkingSessionRecordView)
    ensures
        ({
            let line = record_line(record);
            let about = text::replaced(record.summary@, '`', "'"@);
            &&& text::occurs_at(line, record.timestamp@, 2)
            &&& text::occurs_at(line, kind_name(record.kind), 5int + record.timestamp@.len())
            &&& text::occurs_at(line, about, line.len() - about.len())
        }),
        kind_name(record.kind) == match record.kind {
            WorkingSessionRecordKind::UserPrompt => "user_prompt"@,
            WorkingSessionRecordKind::AssistantFinal => "assistant_final"@,
            WorkingSessionRecordKind::ProcessPlan => "process_plan"@,
            WorkingSessionRecordKind::ProcessTool => "process_tool"@,
            WorkingSessionRecordKind::Error => "error"@,
        },
{
    reveal_strlit("- ");
    reveal_strlit(" | ");
    let line = record_line(record);
    let about = text::replaced(record.summary@, '`', "'"@);
    let kind = kind_name(record.kind);
    let at: int = 5int + record.timestamp@.len();
    assert(line.subrange(2, 2 + record.timestamp@.len() as int) =~= record.timestamp@);
    assert(line.subrange(at, at + kind.len()) =~= kind);
    assert(line.subrange(line.len() - about.len(), line.len() as int) =~= about);
}

/// Who stops a turn is told whose it is and in which session, and whether it was asked to end
/// before.
pub proof fn law_stops_say_what_was_stopped(
    snapshot: SessionCurrentStatus,
    session_id: Seq<char>,
    state: InterruptRunningTurnState,
)
    ensures
        ({
            let began = if snapshot.phase == WorkspaceStatusPhase::TurnFinalizing {
                "Interrupt was already requested for "@
            } else {
                "Interrupt requested for "@
            };
            let owner = if snapshot.activity_source == SessionActivitySource::Tui {
                "shared TUI"@
            } else {
                "Telegram"@
            };
            (began + owner + " session `"@ + snapshot.session_id@ + "`."@).is_prefix_of(
                stop_started_text(snapshot),
            )
        }),
        ({
            let began = if state == InterruptRunningTurnState::AlreadyRequested {
                "Interrupt was already requested for "@
            } else {
                "Interrupt requested for "@
            };
            (began + "Telegram session `"@ + session_id + "`."@).is_prefix_of(
                stop_action_text(session_id, state),
            )
        }),
{
    reveal_strlit("`. Wait for the current turn to settle.");
    reveal_strlit("`.");
    reveal_strlit("Telegram session `");
    reveal_strlit("Telegram");
    reveal_strlit(" session `");
    let began = if snapshot.phase == WorkspaceStatusPhase::TurnFinalizing {
        "Interrupt was already requested for "@
    } else {
        "Interrupt requested for "@
    };
    let owner = if snapshot.activity_source == SessionActivitySource::Tui {
        "shared TUI"@
    } else {
        "Telegram"@
    };
    let started = began + owner + " session `"@ + snapshot.session_id@ + "`."@;
    assert(started =~= stop_started_text(snapshot).subrange(0, started.len() as int));
    let asked = if state == InterruptRunningTurnState::AlreadyRequested {
        "Interrupt was already requested for "@
    } else {
        "Interrupt requested for "@
    };
    assert("Telegram session `"@ =~= "Telegram"@ + " session `"@);
    let action = asked + "Telegram session `"@ + session_id + "`."@;
    assert(action =~= stop_action_text(session_id, state).subrange(0, action.len() as int));
}

/// The mode of a workspace is shown with that of its session, the permissions of the session, and
/// whether the two modes have drifted apart.
pub proof fn law_mode_views_show_the_modes(view: WorkspaceExecutionModeView)
    ensures
        ({
            let lines = mode_view_lines(view);
            &&& lines.len() == 7
            &&& lines[0] == field(
                "workspace_execution_mode"@,
                view.workspace_execution_mode.name(),
            )
            &&& view.current_execution_mode matches Some(mode) ==> lines[1] == field(
                "current_execution_mode"@,
                mode.name(),
            )
            &&& view.current_execution_mode is None ==> lines[1] == field(
                "current_execution_mode"@,
                "none"@,
            )
            &&& view.current_approval_policy matches Some(policy) ==> lines[2] == field(
                "current_approval_policy"@,
                policy@,
            )
            &&& view.current_sandbox_policy matches Some(policy) ==> lines[3] == field(
                "current_sandbox_policy"@,
                policy@,
            )
            &&& view.mode_drift ==> lines[4] == field("mode_drift"@, "yes"@)
            &&& !view.mode_drift ==> lines[4] == field("mode_drift"@, "no"@)
        }),
{
}

/// How a local client is launched is shown with the session that it would continue, and with those
/// that it could resume.
pub proof fn law_launch_usage_names_the_sessions(config: HcodexLaunchConfigView, i: int)
    ensures
        config.current_codex_thread_id matches Some(id) ==> launch_usage_lines(config)[1] == field(
            "current_codex_thread_id"@,
            id@,
        ),
        config.recent_codex_sessions@.len() == 0 ==> launch_usage_lines(config)[2] == field(
            "recent_sessions"@,
            "none"@,
        ),
        recent_ids(config.recent_codex_sessions@).len() == config.recent_codex_sessions@.len(),
        0 <= i < config.recent_codex_sessions@.len() ==> text::contains(
            launch_usage_lines(config)[2],
            config.recent_codex_sessions@[i].session_id@,
        ),
{
    if 0 <= i < config.recent_codex_sessions@.len() {
        let ids = recent_ids(config.recent_codex_sessions@);
        let all = text::joined(ids, ", "@);
        let line = launch_usage_lines(config)[2];
        let name = "recent_sessions"@;
        text::law_joined_holds_every_part(ids, ", "@, i);
        reveal_strlit(": `");
        reveal_strlit("`");
        let at = text::part_start(ids, ", "@.len(), i) as int;
        let start = name.len() + 3 + at;
        assert(line =~= name + ": `"@ + all + "`"@);
        assert(line.subrange(start, start + ids[i].len()) =~= all.subrange(at, at + ids[i].len()));
        assert(text::occurs_at(line, ids[i], start));
    }
}

/// The causes of an error are told in their order; those that say nothing are left out.
pub proof fn law_telling_causes_are_told(
    first: Seq<Seq<char>>,
    cause: Seq<char>,
    rest: Seq<Seq<char>>,
)
    ensures
        telling(first + seq![cause] + rest) == telling(first) + (if text::is_blank(cause) {
            Seq::empty()
        } else {
            seq![cause]
        }) + telling(rest),
{
    let says = |cause: Seq<char>| !text::is_blank(cause);
    Seq::filter_distributes_over_add(first + seq![cause], rest, says);
    Seq::filter_distributes_over_add(first, seq![cause], says);
    assert(seq![cause].drop_last() =~= Seq::<Seq<char>>::empty());
    assert(Seq::<Seq<char>>::empty().filter(says) =~= Seq::<Seq<char>>::empty()) by {
        reveal(Seq::filter);
    }
    assert(seq![cause].filter(says) =~= if text::is_blank(cause) {
        Seq::<Seq<char>>::empty()
    } else {
        seq![cause]
    }) by {
        reveal(Seq::filter);
    }
}

/// A list of sessions has its heading and ends with how to see more; the other texts that show how to
/// go on name the commands for it.
pub proof fn law_lists_say_how_to_go_on(
    current: Option<Seq<char>>,
    summaries: Seq<WorkingSessionSummaryView>,
    view: WorkspaceExecutionModeView,
    config: HcodexLaunchConfigView,
)
    ensures
        summary_lines(current, summaries)[0] == "Recent working sessions:"@,
        summary_lines(current, summaries).last()
            == "Use `/session_log <session_id>` for detailed records."@,
        mode_view_lines(view).last()
            == "Use `/set_workspace_execution_mode full_auto` or `/set_workspace_execution_mode yolo`."@,
        "Usage: `/launch_local_session new`"@.is_prefix_of(launch_usage_lines(config)[0]),
{
    reveal_strlit("Usage: `/launch_local_session new`");
    reveal_strlit(
        "Usage: `/launch_local_session new`, `/launch_local_session continue_current`, or `/launch_local_session resume <session_id>`.",
    );
}

} // verus!
