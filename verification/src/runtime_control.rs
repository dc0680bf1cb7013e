//! The control of the runtime: adding workspaces, launching sessions, and the actions that
//! a front end can ask for.
use vstd::prelude::*;
use vstd::string::*;

use crate::collaboration_mode::CollaborationMode;
use crate::execution_mode::ExecutionMode;
use crate::paths;
use crate::repository;
use crate::repository::{
    BindingModel, RecentCodexSessionEntry, SessionBinding, ThreadMetadata, ThreadRecord,
};
use crate::runtime_protocol;
use crate::runtime_protocol::{
    InterruptRunningTurnState, LaunchLocalSessionTarget, RuntimeControlAction,
    RuntimeControlActionEnvelope, RuntimeControlActionRequest, RuntimeControlActionResult,
};
use crate::telegram_html;
use crate::text;
use crate::thread_state::{ResolvedThreadState, RunStatus};
use crate::workspace_status::{SessionCurrentStatus, WorkspaceStatusPhase};

verus! {

broadcast use vstd::string::group_string_axioms;

/// Who runs the servers of the workspaces.
#[derive(Clone, Copy, Debug, PartialEq, Eq, Structural)]
pub enum RuntimeOwnershipMode {
    SelfManaged,
    DesktopOwner,
}

impl RuntimeOwnershipMode {
    /// Whether the desktop owner runs the servers.
    pub fn runtime_is_owner_managed(self) -> (res: bool)
        ensures
            res == (self == RuntimeOwnershipMode::DesktopOwner),
    {
        self == RuntimeOwnershipMode::DesktopOwner
    }
}

/// What a launch of a local session needs.
#[derive(Debug, Clone)]
pub struct HcodexLaunchConfigView {
    pub workspace_cwd: String,
    pub thread_key: String,
    pub hcodex_path: String,
    pub hcodex_available: bool,
    pub workspace_execution_mode: ExecutionMode,
    pub current_execution_mode: Option<ExecutionMode>,
    pub current_approval_policy: Option<String>,
    pub current_sandbox_policy: Option<String>,
    pub mode_drift: bool,
    pub current_codex_thread_id: Option<String>,
    pub recent_codex_sessions: Vec<RecentCodexSessionEntry>,
    pub launch_new_command: String,
    pub launch_current_command: Option<String>,
    pub launch_resume_commands: Vec<String>,
}

/// The mode of a workspace, and that of its session.
#[derive(Debug, Clone)]
pub struct WorkspaceExecutionModeView {
    pub thread_key: String,
    pub workspace_cwd: String,
    pub workspace_execution_mode: ExecutionMode,
    pub current_execution_mode: Option<ExecutionMode>,
    pub current_approval_policy: Option<String>,
    pub current_sandbox_policy: Option<String>,
    pub mode_drift: bool,
}

/// A file of the runtime, as found in a workspace.
#[derive(Debug, Clone)]
pub struct WorkspaceSurfaceProbeFile {
    pub path: String,
    pub exists: bool,
    pub summary: Option<String>,
}

/// What the runtime has left in a workspace.
#[derive(Debug, Clone)]
pub struct WorkspaceSurfaceProbe {
    pub canonical_workspace_cwd: String,
    pub threadbridge_exists: bool,
    pub bin_exists: bool,
    pub state_exists: bool,
    pub tool_requests_exists: bool,
    pub tool_results_exists: bool,
    pub workspace_config: WorkspaceSurfaceProbeFile,
    pub app_server_current: WorkspaceSurfaceProbeFile,
    pub runtime_observer_current: WorkspaceSurfaceProbeFile,
    pub runtime_observer_events: WorkspaceSurfaceProbeFile,
}

/// A thread that is bound to a workspace.
#[derive(Debug, Clone)]
pub struct WorkspaceBindingSummary {
    pub thread_key: String,
    pub title: Option<String>,
}

/// What was found before a workspace is added.
#[derive(Debug, Clone)]
pub struct WorkspaceAddPreflight {
    pub probe: WorkspaceSurfaceProbe,
    pub active_threads: Vec<WorkspaceBindingSummary>,
    pub archived_threads: Vec<WorkspaceBindingSummary>,
}

/// How the presence of a file is shown.
pub open spec fn presence(value: bool) -> Seq<char> {
    if value {
        "present"@
    } else {
        "missing"@
    }
}

/// How an answer is shown.
pub open spec fn answer(value: bool) -> Seq<char> {
    if value {
        "yes"@
    } else {
        "no"@
    }
}

/// How the presence of a file is shown.
pub fn present_label(value: bool) -> (res: &'static str)
    ensures
        res@ == presence(value),
{
    if value {
        "present"
    } else {
        "missing"
    }
}

/// How an answer is shown.
pub fn yes_no_label(value: bool) -> (res: &'static str)
    ensures
        res@ == answer(value),
{
    if value {
        "yes"
    } else {
        "no"
    }
}

/// How a bound thread is shown: with its title where it has one.
pub open spec fn binding_summary_text(binding: WorkspaceBindingSummary) -> Seq<char> {
    match text::filled(text::opt_view(binding.title)) {
        Some(title) => binding.thread_key@ + " ("@ + title + ")"@,
        None => binding.thread_key@,
    }
}

/// How bound threads are shown.
pub open spec fn binding_summaries_text(bindings: Seq<WorkspaceBindingSummary>) -> Seq<char> {
    text::joined(
        Seq::new(bindings.len(), |i: int| binding_summary_text(bindings[i])),
        ", "@,
    )
}

/// The lines on a file.
pub open spec fn probe_file_lines(label: Seq<char>, file: WorkspaceSurfaceProbeFile) -> Seq<
    Seq<char>,
> {
    let head = seq![label + ": "@ + presence(file.exists), "path: "@ + file.path@];
    match file.summary {
        Some(summary) => head.push("summary: "@ + summary@).push(Seq::empty()),
        None => head.push(Seq::empty()),
    }
}

impl WorkspaceSurfaceProbe {
    /// The lines on the workspace.
    pub open spec fn lines(self) -> Seq<Seq<char>> {
        seq![
            "Workspace surface probe."@,
            "workspace: "@ + self.canonical_workspace_cwd@,
            ".threadbridge/: "@ + presence(self.threadbridge_exists),
            ".threadbridge/bin/: "@ + presence(self.bin_exists),
            ".threadbridge/state/: "@ + presence(self.state_exists),
            ".threadbridge/tool_requests/: "@ + presence(self.tool_requests_exists),
            ".threadbridge/tool_results/: "@ + presence(self.tool_results_exists),
            Seq::empty(),
        ] + probe_file_lines("workspace-config.json"@, self.workspace_config) + probe_file_lines(
            "app-server/current.json"@,
            self.app_server_current,
        ) + probe_file_lines("runtime-observer/current.json"@, self.runtime_observer_current)
            + probe_file_lines("runtime-observer/events.jsonl"@, self.runtime_observer_events)
    }

    /// What was found, in words.
    pub fn render_text(&self) -> (res: String)
        ensures
            res@ == text::joined(self.lines(), "\n"@),
    {
        let mut lines: Vec<String> = Vec::new();
        text::push_line(&mut lines, "Workspace surface probe.".to_owned());
        text::push_line(
            &mut lines,
            text::concat2("workspace: ", self.canonical_workspace_cwd.as_str()),
        );
        text::push_line(
            &mut lines,
            text::concat2(".threadbridge/: ", present_label(self.threadbridge_exists)),
        );
        text::push_line(
            &mut lines,
            text::concat2(".threadbridge/bin/: ", present_label(self.bin_exists)),
        );
        text::push_line(
            &mut lines,
            text::concat2(".threadbridge/state/: ", present_label(self.state_exists)),
        );
        text::push_line(
            &mut lines,
            text::concat2(
                ".threadbridge/tool_requests/: ",
                present_label(self.tool_requests_exists),
            ),
        );
        text::push_line(
            &mut lines,
            text::concat2(
                ".threadbridge/tool_results/: ",
                present_label(self.tool_results_exists),
            ),
        );
        text::push_line(&mut lines, String::new());
        append_probe_file_lines(&mut lines, "workspace-config.json", &self.workspace_config);
        append_probe_file_lines(&mut lines, "app-server/current.json", &self.app_server_current);
        append_probe_file_lines(
            &mut lines,
            "runtime-observer/current.json",
            &self.runtime_observer_current,
        );
        append_probe_file_lines(
            &mut lines,
            "runtime-observer/events.jsonl",
            &self.runtime_observer_events,
        );
        proof {
            assert(text::views(lines@) =~= self.lines());
        }
        text::join(&lines, "\n")
    }
}

/// Adds the lines on a file.
pub fn append_probe_file_lines(
    lines: &mut Vec<String>,
    label: &str,
    file: &WorkspaceSurfaceProbeFile,
)
    ensures
        text::views(final(lines)@) == text::views(old(lines)@) + probe_file_lines(label@, *file),
{
    let ghost before = text::views(lines@);
    text::push_line(lines, text::concat3(label, ": ", present_label(file.exists)));
    text::push_line(lines, text::concat2("path: ", file.path.as_str()));
    match &file.summary {
        Some(summary) => text::push_line(lines, text::concat2("summary: ", summary.as_str())),
        None => {},
    }
    text::push_line(lines, String::new());
    proof {
        assert(text::views(lines@) =~= before + probe_file_lines(label@, *file));
    }
}

/// How bound threads are shown.
pub fn render_binding_summaries(bindings: &Vec<WorkspaceBindingSummary>) -> (res: String)
    ensures
        res@ == binding_summaries_text(bindings@),
{
    let ghost all = Seq::new(bindings@.len(), |i: int| binding_summary_text(bindings@[i]));
    let mut parts: Vec<String> = Vec::new();
    let mut i: usize = 0;
    while i < bindings.len()
        invariant
            i <= bindings@.len(),
            all == Seq::new(bindings@.len(), |i: int| binding_summary_text(bindings@[i])),
            text::views(parts@) =~= all.take(i as int),
        decreases bindings@.len() - i,
    {
        let binding = &bindings[i];
        let part = match text::trim_filled(text::as_deref(&binding.title)) {
            Some(title) => text::concat4(binding.thread_key.as_str(), " (", title, ")"),
            None => binding.thread_key.clone(),
        };
        proof {
            assert(all[i as int] == part@);
        }
        text::push_line(&mut parts, part);
        i += 1;
    }
    proof {
        assert(all.take(all.len() as int) =~= all);
    }
    text::join(&parts, ", ")
}

impl WorkspaceAddPreflight {
    /// Why the workspace cannot be added, where it cannot: a thread is bound to it, or an
    /// archived thread was.
    pub open spec fn reason(self) -> Option<Seq<char>> {
        if self.active_threads@.len() > 0 {
            Some(
                "blocked_by_active_binding: workspace `"@ + self.probe.canonical_workspace_cwd@
                    + "` is already bound to active thread(s): "@ + binding_summaries_text(
                    self.active_threads@,
                ),
            )
        } else if self.archived_threads@.len() > 0 {
            Some(
                "blocked_by_archived_binding: workspace `"@ + self.probe.canonical_workspace_cwd@
                    + "` still has archived thread history: "@ + binding_summaries_text(
                    self.archived_threads@,
                )
                    + ". Purge archived threads from the desktop tray before re-adding this workspace."@,
            )
        } else {
            None
        }
    }

    /// What is said of bound threads.
    pub open spec fn bindings_text(bindings: Seq<WorkspaceBindingSummary>) -> Seq<char> {
        if bindings.len() == 0 {
            "none"@
        } else {
            binding_summaries_text(bindings)
        }
    }

    /// The lines on the workspace.
    pub open spec fn lines(self) -> Seq<Seq<char>> {
        seq![
            "Workspace add preflight."@,
            "workspace: "@ + self.probe.canonical_workspace_cwd@,
            "active_bindings: "@ + Self::bindings_text(self.active_threads@),
            "archived_bindings: "@ + Self::bindings_text(self.archived_threads@),
            "reset_required: "@ + answer(self.probe.threadbridge_exists),
            match self.reason() {
                Some(reason) => "reset_allowed: no ("@ + reason + ")"@,
                None => "reset_allowed: yes"@,
            },
        ]
    }

    /// Whether the runtime has left something that must go first.
    pub fn reset_required(&self) -> (res: bool)
        ensures
            res == self.probe.threadbridge_exists,
    {
        self.probe.threadbridge_exists
    }

    /// Why the workspace cannot be added, where it cannot.
    pub fn blocking_reason(&self) -> (res: Option<String>)
        ensures
            text::opt_view(res) == self.reason(),
    {
        if self.active_threads.len() > 0 {
            let bindings = render_binding_summaries(&self.active_threads);
            return Some(
                text::concat4(
                    "blocked_by_active_binding: workspace `",
                    self.probe.canonical_workspace_cwd.as_str(),
                    "` is already bound to active thread(s): ",
                    bindings.as_str(),
                ),
            );
        }
        if self.archived_threads.len() > 0 {
            let bindings = render_binding_summaries(&self.archived_threads);
            return Some(
                text::concat5(
                    "blocked_by_archived_binding: workspace `",
                    self.probe.canonical_workspace_cwd.as_str(),
                    "` still has archived thread history: ",
                    bindings.as_str(),
                    ". Purge archived threads from the desktop tray before re-adding this workspace.",
                ),
            );
        }
        None
    }

    /// What was found, in words.
    pub fn render_text(&self) -> (res: String)
        ensures
            res@ == text::joined(self.lines(), "\n"@),
    {
        let active = if self.active_threads.len() == 0 {
            "none".to_owned()
        } else {
            render_binding_summaries(&self.active_threads)
        };
        let archived = if self.archived_threads.len() == 0 {
            "none".to_owned()
        } else {
            render_binding_summaries(&self.archived_threads)
        };
        let mut lines: Vec<String> = Vec::new();
        text::push_line(&mut lines, "Workspace add preflight.".to_owned());
        text::push_line(
            &mut lines,
            text::concat2("workspace: ", self.probe.canonical_workspace_cwd.as_str()),
        );
        text::push_line(&mut lines, text::concat2("active_bindings: ", active.as_str()));
        text::push_line(&mut lines, text::concat2("archived_bindings: ", archived.as_str()));
        text::push_line(
            &mut lines,
            text::concat2("reset_required: ", yes_no_label(self.reset_required())),
        );
        match self.blocking_reason() {
            Some(reason) => text::push_line(
                &mut lines,
                text::concat3("reset_allowed: no (", reason.as_str(), ")"),
            ),
            None => text::push_line(&mut lines, "reset_allowed: yes".to_owned()),
        }
        proof {
            assert(text::views(lines@) =~= self.lines());
        }
        text::join(&lines, "\n")
    }
}

/// A workspace is free to be added exactly where no thread, active or archived, is bound to
/// it.
pub proof fn law_only_free_workspaces_are_added(preflight: WorkspaceAddPreflight)
    ensures
        preflight.reason() is None <==> preflight.active_threads@.len() == 0
            && preflight.archived_threads@.len() == 0,
{
}

/// The summary of a thread that is bound to a workspace.
pub fn workspace_binding_summary(metadata: &ThreadMetadata) -> (res: WorkspaceBindingSummary)
    ensures
        res.thread_key@ == metadata@.thread_key,
        text::opt_view(res.title) == metadata@.title,
{
    WorkspaceBindingSummary {
        thread_key: metadata.thread_key.clone(),
        title: text::clone_opt(&metadata.title),
    }
}

/// The words of a text on one line, cut behind 220 characters; none where there are none.
pub open spec fn compacted(contents: Seq<char>) -> Option<Seq<char>> {
    let compact = text::joined(text::words(contents), " "@);
    if compact.len() == 0 {
        None
    } else if compact.len() > 220 {
        Some(compact.take(220) + "..."@)
    } else {
        Some(compact)
    }
}

/// The words of a text on one line, cut behind 220 characters.
pub fn compact_probe_text(contents: &str) -> (res: Option<String>)
    ensures
        text::opt_view(res) == compacted(contents@),
{
    let words = text::split_words(contents);
    let compact = text::join(&words, " ");
    let chars = text::to_chars(compact.as_str());
    if chars.len() == 0 {
        return None;
    }
    if chars.len() > 220 {
        let mut cut = text::string_between(&chars, 0, 220);
        proof {
            assert(chars@.subrange(0, 220) =~= compact@.take(220));
        }
        cut.push_str("...");
        return Some(cut);
    }
    Some(compact)
}

/// What is shown of a file of JSON, given its contents where it could be read.
pub fn probe_json_file(path: String, contents: Option<&str>) -> (res: WorkspaceSurfaceProbeFile)
    ensures
        res.path == path,
        text::opt_view(res.summary) == match contents {
            Some(contents) => compacted(contents@),
            None => None,
        },
        res.exists == res.summary is Some,
{
    let summary = match contents {
        Some(contents) => compact_probe_text(contents),
        None => None,
    };
    WorkspaceSurfaceProbeFile { path, exists: summary.is_some(), summary }
}

/// What is shown of a file of events, given its contents where it could be read.
pub fn probe_events_file(path: String, contents: Option<&str>) -> (res: WorkspaceSurfaceProbeFile)
    ensures
        res.path == path,
        text::opt_view(res.summary) == match contents {
            Some(contents) => Some(
                text::decimal(text::lines_of(contents@).len()) + " lines, "@ + text::decimal(
                    text::byte_len(contents@),
                ) + " bytes"@,
            ),
            None => None,
        },
        res.exists == contents is Some,
{
    let summary = match contents {
        Some(contents) => {
            let lines = text::lines(contents);
            let count = text::decimal_text(lines.len() as u64);
            let bytes = text::decimal_text(contents.as_bytes().len() as u64);
            Some(text::concat4(count.as_str(), " lines, ", bytes.as_str(), " bytes"))
        },
        None => None,
    };
    WorkspaceSurfaceProbeFile { path, exists: summary.is_some(), summary }
}

/// Where the runtime keeps its files in a workspace.
pub open spec fn runtime_dir(workspace: Seq<char>) -> Seq<char> {
    paths::below(workspace, ".threadbridge"@)
}

/// Where the runtime keeps its state in a workspace.
pub open spec fn state_dir(workspace: Seq<char>) -> Seq<char> {
    paths::below(runtime_dir(workspace), "state"@)
}

/// The files and directories that a probe of a workspace looks for.
#[derive(Debug, Clone)]
pub struct WorkspaceSurfacePaths {
    pub threadbridge_dir: String,
    pub bin_dir: String,
    pub state_dir: String,
    pub tool_requests_dir: String,
    pub tool_results_dir: String,
    pub workspace_config: String,
    pub app_server_current: String,
    pub runtime_observer_current: String,
    pub runtime_observer_events: String,
}

impl WorkspaceSurfacePaths {
    /// The files and directories of a workspace.
    pub fn of(workspace: &str) -> (res: Self)
        ensures
            res.threadbridge_dir@ == runtime_dir(workspace@),
            res.bin_dir@ == paths::below(runtime_dir(workspace@), "bin"@),
            res.state_dir@ == state_dir(workspace@),
            res.tool_requests_dir@ == paths::below(runtime_dir(workspace@), "tool_requests"@),
            res.tool_results_dir@ == paths::below(runtime_dir(workspace@), "tool_results"@),
            res.workspace_config@ == paths::below(state_dir(workspace@), "workspace-config.json"@),
            res.app_server_current@ == paths::below(
                paths::below(state_dir(workspace@), "app-server"@),
                "current.json"@,
            ),
            res.runtime_observer_current@ == paths::below(
                paths::below(state_dir(workspace@), "runtime-observer"@),
                "current.json"@,
            ),
            res.runtime_observer_events@ == paths::below(
                paths::below(state_dir(workspace@), "runtime-observer"@),
                "events.jsonl"@,
            ),
    {
        let root = paths::join(workspace, ".threadbridge");
        let state = paths::join(root.as_str(), "state");
        let app_server = paths::join(state.as_str(), "app-server");
        let observer = paths::join(state.as_str(), "runtime-observer");
        WorkspaceSurfacePaths {
            bin_dir: paths::join(root.as_str(), "bin"),
            tool_requests_dir: paths::join(root.as_str(), "tool_requests"),
            tool_results_dir: paths::join(root.as_str(), "tool_results"),
            workspace_config: paths::join(state.as_str(), "workspace-config.json"),
            app_server_current: paths::join(app_server.as_str(), "current.json"),
            runtime_observer_current: paths::join(observer.as_str(), "current.json"),
            runtime_observer_events: paths::join(observer.as_str(), "events.jsonl"),
            threadbridge_dir: root,
            state_dir: state,
        }
    }
}

/// A text between single quotes, as a shell reads it back.
pub open spec fn quoted(value: Seq<char>) -> Seq<char> {
    "'"@ + text::replaced(value, '\'', "'\"'\"'"@) + "'"@
}

/// A text between double quotes, as AppleScript reads it back.
pub open spec fn apple_quoted(value: Seq<char>) -> Seq<char> {
    "\""@ + text::replaced(text::replaced(value, '\\', "\\\\"@), '"', "\\\""@) + "\""@
}

/// A text between single quotes, as a shell reads it back.
pub fn shell_quote(value: &str) -> (res: String)
    ensures
        res@ == quoted(value@),
{
    let inner = text::replace_char(value, '\'', "'\"'\"'");
    text::concat3("'", inner.as_str(), "'")
}

/// A text between double quotes, as AppleScript reads it back.
pub fn apple_script_string(value: &str) -> (res: String)
    ensures
        res@ == apple_quoted(value@),
{
    let slashes = text::replace_char(value, '\\', "\\\\");
    let inner = text::replace_char(slashes.as_str(), '"', "\\\"");
    text::concat3("\"", inner.as_str(), "\"")
}

/// The script that runs a command in a terminal window.
pub fn terminal_script(command: &str) -> (res: String)
    ensures
        res@ == "tell application \"Terminal\"\nactivate\ndo script "@ + apple_quoted(command@)
            + "\nend tell"@,
{
    let quoted = apple_script_string(command);
    text::concat3(
        "tell application \"Terminal\"\nactivate\ndo script ",
        quoted.as_str(),
        "\nend tell",
    )
}

/// The command that launches a local session.
pub open spec fn launch_command(
    hcodex_path: Seq<char>,
    thread_key: Seq<char>,
    mode: ExecutionMode,
    session_id: Option<Seq<char>>,
) -> Seq<char> {
    let start = quoted(hcodex_path) + " --thread-key "@ + quoted(thread_key) + " "@ + mode.flag();
    match session_id {
        Some(session_id) => start + " resume "@ + quoted(session_id),
        None => start,
    }
}

/// The command that launches a local session.
pub fn hcodex_launch_command(
    hcodex_path: &str,
    thread_key: &str,
    execution_mode: ExecutionMode,
    session_id: Option<&str>,
) -> (res: String)
    ensures
        res@ == launch_command(
            hcodex_path@,
            thread_key@,
            execution_mode,
            text::opt_str_view(session_id),
        ),
{
    let path = shell_quote(hcodex_path);
    let key = shell_quote(thread_key);
    let mut res = text::concat5(
        path.as_str(),
        " --thread-key ",
        key.as_str(),
        " ",
        execution_mode.hcodex_flag(),
    );
    match session_id {
        Some(session_id) => {
            let id = shell_quote(session_id);
            res.push_str(" resume ");
            res.push_str(id.as_str());
        },
        None => {},
    }
    res
}

/// The title of the thread of a workspace: the name of its directory.
pub open spec fn thread_title(workspace: Seq<char>) -> Seq<char> {
    match text::filled(paths::file_name_of(workspace)) {
        Some(title) => title,
        None => workspace,
    }
}

/// The title of the thread of a workspace: the name of its directory.
pub fn workspace_thread_title(workspace_path: &str) -> (res: String)
    ensures
        res@ == thread_title(workspace_path@),
{
    let name = paths::file_name(workspace_path);
    match text::trim_filled(text::as_deref(&name)) {
        Some(title) => title.to_owned(),
        None => workspace_path.to_owned(),
    }
}

/// The session of a binding that can be continued: its own, where it has one.
pub open spec fn bound_session(binding: Option<BindingModel>) -> Option<Seq<char>> {
    match binding {
        Some(binding) => text::filled(binding.current_codex_thread_id),
        None => None,
    }
}

/// The session of a binding that can be continued.
pub fn current_bound_session_id(session: Option<&SessionBinding>) -> (res: Option<&str>)
    ensures
        text::opt_str_view(res) == bound_session(repository::opt_binding_ref(session)),
{
    match session {
        Some(session) => text::trim_filled(text::as_deref(&session.current_codex_thread_id)),
        None => None,
    }
}

/// The session to reconnect to, as the binding names it, unless the name is blank.
pub fn reconnect_target_thread_id(binding: &SessionBinding) -> (res: Option<&str>)
    ensures
        text::opt_str_view(res) == match binding@.current_codex_thread_id {
            Some(id) => if text::is_blank(id) {
                None
            } else {
                Some(id)
            },
            None => None,
        },
{
    match &binding.current_codex_thread_id {
        Some(id) => {
            if text::trim(id.as_str()).is_empty() {
                None
            } else {
                Some(id.as_str())
            }
        },
        None => None,
    }
}

/// The mode of a workspace and that of its session, where the binding has a workspace.
pub fn workspace_execution_mode_view_for_record(
    metadata: &ThreadMetadata,
    binding: &SessionBinding,
    workspace_execution_mode: ExecutionMode,
) -> (res: Option<WorkspaceExecutionModeView>)
    ensures
        match res {
            Some(view) => {
                &&& view.thread_key@ == metadata@.thread_key
                &&& binding@.workspace_cwd == Some(view.workspace_cwd@)
                &&& view.workspace_execution_mode == workspace_execution_mode
                &&& view.current_execution_mode == binding@.current_execution_mode
                &&& text::opt_view(view.current_approval_policy)
                    == binding@.current_approval_policy
                &&& text::opt_view(view.current_sandbox_policy) == binding@.current_sandbox_policy
                &&& view.mode_drift == (binding@.current_execution_mode != Some(
                    workspace_execution_mode,
                ))
            },
            None => binding@.workspace_cwd is None,
        },
{
    match &binding.workspace_cwd {
        Some(workspace) => {
            let mode_drift = match binding.current_execution_mode {
                Some(mode) => mode != workspace_execution_mode,
                None => true,
            };
            Some(
                WorkspaceExecutionModeView {
                    thread_key: metadata.thread_key.clone(),
                    workspace_cwd: workspace.clone(),
                    workspace_execution_mode,
                    current_execution_mode: binding.current_execution_mode,
                    current_approval_policy: text::clone_opt(&binding.current_approval_policy),
                    current_sandbox_policy: text::clone_opt(&binding.current_sandbox_policy),
                    mode_drift,
                },
            )
        },
        None => None,
    }
}

/// What a launch of a local session needs, where the binding has a workspace. The sessions
/// are those that were in use in the workspace.
pub fn workspace_launch_config_for_record(
    metadata: &ThreadMetadata,
    binding: &SessionBinding,
    workspace_execution_mode: ExecutionMode,
    recent_codex_sessions: Vec<RecentCodexSessionEntry>,
    hcodex_available: bool,
) -> (res: Option<HcodexLaunchConfigView>)
    ensures
        match res {
            Some(config) => {
                let path = runtime_protocol::launcher_of(config.workspace_cwd@);
                let key = metadata@.thread_key;
                let mode = workspace_execution_mode;
                &&& binding@.workspace_cwd == Some(config.workspace_cwd@)
                &&& config.thread_key@ == key
                &&& config.hcodex_path@ == path
                &&& config.hcodex_available == hcodex_available
                &&& config.workspace_execution_mode == mode
                &&& config.current_execution_mode == binding@.current_execution_mode
                &&& text::opt_view(config.current_approval_policy)
                    == binding@.current_approval_policy
                &&& text::opt_view(config.current_sandbox_policy)
                    == binding@.current_sandbox_policy
                &&& config.mode_drift == (binding@.current_execution_mode != Some(mode))
                &&& text::opt_view(config.current_codex_thread_id)
                    == binding@.current_codex_thread_id
                &&& config.recent_codex_sessions == recent_codex_sessions
                &&& config.launch_new_command@ == launch_command(path, key, mode, None)
                &&& text::opt_view(config.launch_current_command)
                    == match binding@.current_codex_thread_id {
                    Some(id) => Some(launch_command(path, key, mode, Some(id))),
                    None => None,
                }
                &&& text::views(config.launch_resume_commands@) == Seq::new(
                    recent_codex_sessions@.len(),
                    |i: int|
                        launch_command(
                            path,
                            key,
                            mode,
                            Some(recent_codex_sessions@[i].session_id@),
                        ),
                )
            },
            None => binding@.workspace_cwd is None,
        },
{
    let view = match workspace_execution_mode_view_for_record(
        metadata,
        binding,
        workspace_execution_mode,
    ) {
        Some(view) => view,
        None => return None,
    };
    let hcodex_path = runtime_protocol::hcodex_path(view.workspace_cwd.as_str());
    let thread_key = metadata.thread_key.clone();
    let launch_new_command = hcodex_launch_command(
        hcodex_path.as_str(),
        thread_key.as_str(),
        workspace_execution_mode,
        None,
    );
    let launch_current_command = match &binding.current_codex_thread_id {
        Some(id) => Some(
            hcodex_launch_command(
                hcodex_path.as_str(),
                thread_key.as_str(),
                workspace_execution_mode,
                Some(id.as_str()),
            ),
        ),
        None => None,
    };
    let mut launch_resume_commands: Vec<String> = Vec::new();
    let ghost all = Seq::new(
        recent_codex_sessions@.len(),
        |i: int|
            launch_command(
                hcodex_path@,
                thread_key@,
                workspace_execution_mode,
                Some(recent_codex_sessions@[i].session_id@),
            ),
    );
    let mut i: usize = 0;
    while i < recent_codex_sessions.len()
        invariant
            i <= recent_codex_sessions@.len(),
            all == Seq::new(
                recent_codex_sessions@.len(),
                |i: int|
                    launch_command(
                        hcodex_path@,
                        thread_key@,
                        workspace_execution_mode,
                        Some(recent_codex_sessions@[i].session_id@),
                    ),
            ),
            text::views(launch_resume_commands@) =~= all.take(i as int),
        decreases recent_codex_sessions@.len() - i,
    {
        let command = hcodex_launch_command(
            hcodex_path.as_str(),
            thread_key.as_str(),
            workspace_execution_mode,
            Some(recent_codex_sessions[i].session_id.as_str()),
        );
        proof {
            assert(all[i as int] == command@);
        }
        text::push_line(&mut launch_resume_commands, command);
        i += 1;
    }
    proof {
        assert(all.take(all.len() as int) =~= all);
    }
    Some(
        HcodexLaunchConfigView {
            workspace_cwd: view.workspace_cwd,
            thread_key,
            hcodex_path,
            hcodex_available,
            workspace_execution_mode,
            current_execution_mode: view.current_execution_mode,
            current_approval_policy: view.current_approval_policy,
            current_sandbox_policy: view.current_sandbox_policy,
            mode_drift: view.mode_drift,
            current_codex_thread_id: text::clone_opt(&binding.current_codex_thread_id),
            recent_codex_sessions,
            launch_new_command,
            launch_current_command,
            launch_resume_commands,
        },
    )
}

/// Why an action was not done.
#[derive(Debug, Clone, PartialEq, Eq)]
pub enum ControlError {
    NotActive,
    NotManaged,
    MissingBinding,
    Unbound,
    MissingWorkspace,
    MissingManagedWorkspace,
    MissingSession,
    NoTurn,
    UnknownTurn(String),
    LauncherUnavailable,
    MissingCurrentSession,
    MissingResumeSession,
    /// A step outside failed, for the reason given.
    Outside(String),
    /// A step was reported that was not asked for.
    OutOfTurn,
}

impl ControlError {
    /// What went wrong, in words.
    pub open spec fn message(self) -> Seq<char> {
        match self {
            ControlError::NotActive => "thread_key is not an active thread"@,
            ControlError::NotManaged => "thread_key is not an active managed workspace"@,
            ControlError::MissingBinding => "managed workspace is missing session binding"@,
            ControlError::Unbound => "This thread is not bound to a workspace yet."@,
            ControlError::MissingWorkspace => "session binding is missing workspace_cwd"@,
            ControlError::MissingManagedWorkspace => "managed workspace is missing workspace_cwd"@,
            ControlError::MissingSession => {
                "This workspace is missing a usable Codex session id. Use New Session first."@
            },
            ControlError::NoTurn => "No active turn is running for this workspace."@,
            ControlError::UnknownTurn(session_id) => "A turn is running for session `"@
                + session_id@
                + "`, but its turn id is unavailable, so it cannot be interrupted yet."@,
            ControlError::LauncherUnavailable => {
                "Managed hcodex is unavailable for this workspace."@
            },
            ControlError::MissingCurrentSession => {
                "managed workspace is missing a current Telegram session"@
            },
            ControlError::MissingResumeSession => {
                "launch_local_session resume target requires session_id"@
            },
            ControlError::Outside(reason) => reason@,
            ControlError::OutOfTurn => "unexpected step of a control action"@,
        }
    }

    /// What went wrong, in words.
    pub fn to_text(&self) -> (res: String)
        ensures
            res@ == self.message(),
    {
        match self {
            ControlError::NotActive => "thread_key is not an active thread".to_owned(),
            ControlError::NotManaged => "thread_key is not an active managed workspace".to_owned(),
            ControlError::MissingBinding => {
                "managed workspace is missing session binding".to_owned()
            },
            ControlError::Unbound => "This thread is not bound to a workspace yet.".to_owned(),
            ControlError::MissingWorkspace => "session binding is missing workspace_cwd".to_owned(),
            ControlError::MissingManagedWorkspace => {
                "managed workspace is missing workspace_cwd".to_owned()
            },
            ControlError::MissingSession => {
                "This workspace is missing a usable Codex session id. Use New Session first.".to_owned()
            },
            ControlError::NoTurn => "No active turn is running for this workspace.".to_owned(),
            ControlError::UnknownTurn(session_id) => text::concat3(
                "A turn is running for session `",
                session_id.as_str(),
                "`, but its turn id is unavailable, so it cannot be interrupted yet.",
            ),
            ControlError::LauncherUnavailable => {
                "Managed hcodex is unavailable for this workspace.".to_owned()
            },
            ControlError::MissingCurrentSession => {
                "managed workspace is missing a current Telegram session".to_owned()
            },
            ControlError::MissingResumeSession => {
                "launch_local_session resume target requires session_id".to_owned()
            },
            ControlError::Outside(reason) => reason.clone(),
            ControlError::OutOfTurn => "unexpected step of a control action".to_owned(),
        }
    }
}

/// Which session a launch opens, by its name where it has one.
#[derive(Debug, Clone, PartialEq, Eq)]
pub enum LaunchSession {
    New,
    Current(String),
    Resume(String),
}

/// A launch that is due.
#[derive(Debug, Clone, PartialEq, Eq)]
pub struct LaunchPlan {
    pub workspace: String,
    pub thread_key: String,
    pub execution_mode: ExecutionMode,
    pub session: LaunchSession,
}

impl LaunchPlan {
    /// The command to run. A session to resume is named without the blanks around it.
    pub open spec fn command_text(self) -> Seq<char> {
        launch_command(
            runtime_protocol::launcher_of(self.workspace@),
            self.thread_key@,
            self.execution_mode,
            match self.session {
                LaunchSession::New => None,
                LaunchSession::Current(id) => Some(id@),
                LaunchSession::Resume(id) => Some(text::trimmed(id@)),
            },
        )
    }

    /// The command to run.
    pub fn command(&self) -> (res: String)
        ensures
            res@ == self.command_text(),
    {
        let path = runtime_protocol::hcodex_path(self.workspace.as_str());
        let session_id = match &self.session {
            LaunchSession::New => None,
            LaunchSession::Current(id) => Some(id.as_str()),
            LaunchSession::Resume(id) => Some(text::trim(id.as_str())),
        };
        hcodex_launch_command(
            path.as_str(),
            self.thread_key.as_str(),
            self.execution_mode,
            session_id,
        )
    }
}

/// What is put on record about an action.
#[derive(Debug, Clone, PartialEq, Eq)]
pub enum ControlLog {
    StartedFresh,
    Revalidated,
    RevalidationFailed,
    ExecutionModeChanged(ExecutionMode),
    Launched(LaunchLocalSessionTarget),
    CollaborationModeChanged(CollaborationMode),
    InterruptRequested { session_id: String, turn_id: String },
}

impl ControlLog {
    /// The line that is put on record.
    pub open spec fn line(self, origin: Seq<char>) -> Seq<char> {
        match self {
            ControlLog::StartedFresh => "Action `"@
                + RuntimeControlAction::StartFreshSession.name()
                + "` started a fresh Codex session from "@ + origin + "."@,
            ControlLog::Revalidated => "Codex session revalidated from "@ + origin + "."@,
            ControlLog::RevalidationFailed => "Codex session revalidation failed from "@ + origin
                + "."@,
            ControlLog::ExecutionModeChanged(mode) => "Action `"@
                + RuntimeControlAction::SetWorkspaceExecutionMode.name()
                + "` changed workspace execution mode to `"@ + mode.name() + "` from "@ + origin
                + "."@,
            ControlLog::Launched(target) => "Action `"@
                + RuntimeControlAction::LaunchLocalSession.name()
                + "` launched local hcodex via `"@ + target.name() + "` from "@ + origin + "."@,
            ControlLog::CollaborationModeChanged(mode) => "Action `"@
                + RuntimeControlAction::SetThreadCollaborationMode.name()
                + "` changed collaboration mode to `"@ + mode.name() + "` from "@ + origin + "."@,
            ControlLog::InterruptRequested { session_id, turn_id } => "Action `"@
                + RuntimeControlAction::InterruptRunningTurn.name()
                + "` requested interrupt for session `"@ + session_id@ + "` turn `"@ + turn_id@
                + "` from "@ + origin + "."@,
        }
    }

    /// The line that is put on record.
    pub fn to_line(&self, origin: &str) -> (res: String)
        ensures
            res@ == self.line(origin@),
    {
        let mut res: String;
        match self {
            ControlLog::StartedFresh => {
                res = text::concat3(
                    "Action `",
                    RuntimeControlAction::StartFreshSession.as_str(),
                    "` started a fresh Codex session from ",
                );
            },
            ControlLog::Revalidated => {
                res = "Codex session revalidated from ".to_owned();
            },
            ControlLog::RevalidationFailed => {
                res = "Codex session revalidation failed from ".to_owned();
            },
            ControlLog::ExecutionModeChanged(mode) => {
                res = text::concat5(
                    "Action `",
                    RuntimeControlAction::SetWorkspaceExecutionMode.as_str(),
                    "` changed workspace execution mode to `",
                    mode.as_str(),
                    "` from ",
                );
            },
            ControlLog::Launched(target) => {
                res = text::concat5(
                    "Action `",
                    RuntimeControlAction::LaunchLocalSession.as_str(),
                    "` launched local hcodex via `",
                    target.as_str(),
                    "` from ",
                );
            },
            ControlLog::CollaborationModeChanged(mode) => {
                res = text::concat5(
                    "Action `",
                    RuntimeControlAction::SetThreadCollaborationMode.as_str(),
                    "` changed collaboration mode to `",
                    mode.as_str(),
                    "` from ",
                );
            },
            ControlLog::InterruptRequested { session_id, turn_id } => {
                res = text::concat4(
                    "Action `",
                    RuntimeControlAction::InterruptRunningTurn.as_str(),
                    "` requested interrupt for session `",
                    session_id.as_str(),
                );
                res.push_str("` turn `");
                res.push_str(turn_id.as_str());
                res.push_str("` from ");
            },
        }
        res.push_str(origin);
        res.push_str(".");
        res
    }
}

/// What an action has come to.
#[derive(Debug)]
pub enum ControlOutcome {
    Started { binding: Option<SessionBinding> },
    Repaired { verified: bool, binding: Option<SessionBinding> },
    ExecutionMode { workspace: String, binding: SessionBinding, mode: ExecutionMode },
    Launched { target: LaunchLocalSessionTarget, plan: LaunchPlan },
    CollaborationMode { mode: CollaborationMode },
    Interrupted {
        session_id: String,
        turn_id: Option<String>,
        state: InterruptRunningTurnState,
    },
}

/// How far an action has come.
#[derive(Debug)]
pub enum ControlStage {
    FindThread,
    StartSession,
    LogStart,
    ReadStarted,
    Reconnect,
    MarkRepaired { verified: bool },
    LogRepaired { verified: bool },
    ReadRepaired { verified: bool },
    ReadMode { mode: ExecutionMode, workspace: String },
    WriteMode { mode: ExecutionMode },
    FindChanged { mode: ExecutionMode },
    ReadChanged { mode: ExecutionMode, workspace: String, binding: SessionBinding },
    FindLogged {
        mode: ExecutionMode,
        workspace: String,
        binding: SessionBinding,
        read: ExecutionMode,
    },
    LogChanged { workspace: String, binding: SessionBinding, read: ExecutionMode },
    ProbeLauncher {
        target: LaunchLocalSessionTarget,
        session_id: Option<String>,
        workspace: String,
        current: Option<String>,
    },
    Launch { target: LaunchLocalSessionTarget, plan: LaunchPlan },
    FindLaunched { target: LaunchLocalSessionTarget, plan: LaunchPlan },
    LogLaunched { target: LaunchLocalSessionTarget, plan: LaunchPlan },
    SetCollaboration { mode: CollaborationMode },
    LogCollaboration { mode: CollaborationMode },
    ResolveRun { workspace: Option<String> },
    ReadBusy { workspace: Option<String> },
    Interrupt { workspace: String, session_id: String, turn_id: String },
    RecordInterrupt { session_id: String, turn_id: String },
    LogInterrupt { session_id: String, turn_id: String },
    Finished,
}

/// What happened outside.
#[derive(Debug)]
pub enum ControlEvent {
    /// The active thread with the key was found, with its binding.
    ThreadFound(Option<SessionBinding>),
    /// There is no active thread with the key.
    ThreadMissing,
    /// The step was done.
    Done,
    /// The saved session could not be reconnected to, for the reason given.
    Refused(String),
    /// The binding, as it is now.
    Binding(Option<SessionBinding>),
    /// The mode of the workspace.
    Mode(ExecutionMode),
    /// The mode of the workspace, and whether its launcher is there.
    Launcher { mode: ExecutionMode, available: bool },
    /// The state of the thread, as it is now.
    State(ResolvedThreadState),
    /// The session that runs a turn.
    Busy(Option<SessionCurrentStatus>),
    /// The step failed, for the reason given.
    Failed(String),
}

/// What is to be done outside.
#[derive(Debug)]
pub enum ControlStep {
    FindThread,
    StartSession { workspace: String },
    Reconnect { workspace: String, session_id: String },
    MarkVerified,
    MarkBroken { reason: String },
    ReadBinding,
    ReadMode { workspace: String },
    WriteMode { workspace: String, mode: ExecutionMode },
    ProbeLauncher { workspace: String },
    Launch { plan: LaunchPlan },
    SetCollaboration { mode: CollaborationMode },
    /// Find out what state the thread is in.
    ResolveRun,
    ReadBusy,
    Interrupt { workspace: String, session_id: String, turn_id: String },
    RecordInterrupt { workspace: String, session_id: String, turn_id: String },
    Log { log: ControlLog },
    Finish { outcome: Result<ControlOutcome, ControlError> },
}


/// A request that is being carried out.
#[derive(Debug)]
pub struct ControlRun {
    pub thread_key: String,
    pub request: RuntimeControlActionRequest,
    pub stage: ControlStage,
}

/// The end of an action.
pub open spec fn ended(outcome: Result<ControlOutcome, ControlError>) -> (ControlStage, ControlStep) {
    (ControlStage::Finished, ControlStep::Finish { outcome })
}

/// The end of an action that was not done.
pub open spec fn refused(error: ControlError) -> (ControlStage, ControlStep) {
    ended(Err(error))
}

/// What a request does first with the thread that it is for.
pub open spec fn thread_found(
    request: RuntimeControlActionRequest,
    binding: Option<SessionBinding>,
) -> (ControlStage, ControlStep) {
    match request {
        RuntimeControlActionRequest::StartFreshSession => match binding {
            Some(binding) => match binding.workspace_cwd {
                Some(workspace) => (
                    ControlStage::StartSession,
                    ControlStep::StartSession { workspace },
                ),
                None => refused(ControlError::MissingWorkspace),
            },
            None => refused(ControlError::Unbound),
        },
        RuntimeControlActionRequest::RepairSessionBinding => match binding {
            Some(binding) => match binding.current_codex_thread_id {
                Some(session_id) => if text::is_blank(session_id@) {
                    refused(ControlError::MissingSession)
                } else {
                    match binding.workspace_cwd {
                        Some(workspace) => (
                            ControlStage::Reconnect,
                            ControlStep::Reconnect { workspace, session_id },
                        ),
                        None => refused(ControlError::MissingWorkspace),
                    }
                },
                None => refused(ControlError::MissingSession),
            },
            None => refused(ControlError::Unbound),
        },
        RuntimeControlActionRequest::SetWorkspaceExecutionMode { execution_mode } => match binding {
            Some(binding) => match binding.workspace_cwd {
                Some(workspace) => (
                    ControlStage::ReadMode { mode: execution_mode, workspace },
                    ControlStep::ReadMode { workspace },
                ),
                None => refused(ControlError::MissingManagedWorkspace),
            },
            None => refused(ControlError::MissingBinding),
        },
        RuntimeControlActionRequest::LaunchLocalSession { target, session_id } => match binding {
            Some(binding) => match binding.workspace_cwd {
                Some(workspace) => (
                    ControlStage::ProbeLauncher {
                        target,
                        session_id,
                        workspace,
                        current: binding.current_codex_thread_id,
                    },
                    ControlStep::ProbeLauncher { workspace },
                ),
                None => refused(ControlError::MissingManagedWorkspace),
            },
            None => refused(ControlError::MissingBinding),
        },
        RuntimeControlActionRequest::SetThreadCollaborationMode { mode } => (
            ControlStage::SetCollaboration { mode },
            ControlStep::SetCollaboration { mode },
        ),
        RuntimeControlActionRequest::InterruptRunningTurn => match binding {
            Some(binding) => (
                ControlStage::ResolveRun { workspace: binding.workspace_cwd },
                ControlStep::ResolveRun,
            ),
            None => refused(ControlError::Unbound),
        },
    }
}

/// What a request comes to where there is no active thread with its key.
pub open spec fn thread_missing(request: RuntimeControlActionRequest) -> ControlError {
    match request {
        RuntimeControlActionRequest::SetWorkspaceExecutionMode { execution_mode } => {
            ControlError::NotManaged
        },
        RuntimeControlActionRequest::LaunchLocalSession { target, session_id } => {
            ControlError::NotManaged
        },
        _ => ControlError::NotActive,
    }
}

/// Which session a launch opens, or why none.
pub open spec fn launch_session(
    target: LaunchLocalSessionTarget,
    session_id: Option<String>,
    current: Option<String>,
) -> Result<LaunchSession, ControlError> {
    match target {
        LaunchLocalSessionTarget::New => Ok(LaunchSession::New),
        LaunchLocalSessionTarget::ContinueCurrent => match current {
            Some(id) => Ok(LaunchSession::Current(id)),
            None => Err(ControlError::MissingCurrentSession),
        },
        LaunchLocalSessionTarget::Resume => match session_id {
            Some(id) => if text::is_blank(id@) {
                Err(ControlError::MissingResumeSession)
            } else {
                Ok(LaunchSession::Resume(id))
            },
            None => Err(ControlError::MissingResumeSession),
        },
    }
}

/// What is done about a session that runs a turn.
pub open spec fn busy_found(workspace: Option<String>, busy: SessionCurrentStatus) -> (
    ControlStage,
    ControlStep,
) {
    if busy.phase == WorkspaceStatusPhase::TurnFinalizing {
        ended(
            Ok(
                ControlOutcome::Interrupted {
                    session_id: busy.session_id,
                    turn_id: busy.turn_id,
                    state: InterruptRunningTurnState::AlreadyRequested,
                },
            ),
        )
    } else {
        match busy.turn_id {
            Some(turn_id) => match workspace {
                Some(workspace) => (
                    ControlStage::Interrupt { workspace, session_id: busy.session_id, turn_id },
                    ControlStep::Interrupt { workspace, session_id: busy.session_id, turn_id },
                ),
                None => refused(ControlError::MissingWorkspace),
            },
            None => refused(ControlError::UnknownTurn(busy.session_id)),
        }
    }
}

/// The next stage of an action and what is to be done there.
pub open spec fn control_next(run: ControlRun, event: ControlEvent) -> (ControlStage, ControlStep) {
    match (run.stage, event) {
        (ControlStage::Finished, _) => refused(ControlError::OutOfTurn),
        (_, ControlEvent::Failed(reason)) => refused(ControlError::Outside(reason)),
        (ControlStage::FindThread, ControlEvent::ThreadFound(binding)) => thread_found(
            run.request,
            binding,
        ),
        (ControlStage::FindThread, ControlEvent::ThreadMissing) => refused(
            thread_missing(run.request),
        ),
        (ControlStage::StartSession, ControlEvent::Done) => (
            ControlStage::LogStart,
            ControlStep::Log { log: ControlLog::StartedFresh },
        ),
        (ControlStage::LogStart, ControlEvent::Done) => (
            ControlStage::ReadStarted,
            ControlStep::ReadBinding,
        ),
        (ControlStage::ReadStarted, ControlEvent::Binding(binding)) => ended(
            Ok(ControlOutcome::Started { binding }),
        ),
        (ControlStage::Reconnect, ControlEvent::Done) => (
            ControlStage::MarkRepaired { verified: true },
            ControlStep::MarkVerified,
        ),
        (ControlStage::Reconnect, ControlEvent::Refused(reason)) => (
            ControlStage::MarkRepaired { verified: false },
            ControlStep::MarkBroken { reason },
        ),
        (ControlStage::MarkRepaired { verified }, ControlEvent::Done) => (
            ControlStage::LogRepaired { verified },
            ControlStep::Log {
                log: if verified {
                    ControlLog::Revalidated
                } else {
                    ControlLog::RevalidationFailed
                },
            },
        ),
        (ControlStage::LogRepaired { verified }, ControlEvent::Done) => (
            ControlStage::ReadRepaired { verified },
            ControlStep::ReadBinding,
        ),
        (ControlStage::ReadRepaired { verified }, ControlEvent::Binding(binding)) => ended(
            Ok(ControlOutcome::Repaired { verified, binding }),
        ),
        (ControlStage::ReadMode { mode, workspace }, ControlEvent::Mode(_)) => (
            ControlStage::WriteMode { mode },
            ControlStep::WriteMode { workspace, mode },
        ),
        (ControlStage::WriteMode { mode }, ControlEvent::Done) => (
            ControlStage::FindChanged { mode },
            ControlStep::FindThread,
        ),
        (ControlStage::FindChanged { mode }, ControlEvent::ThreadFound(binding)) => match binding {
            Some(binding) => match binding.workspace_cwd {
                Some(workspace) => (
                    ControlStage::ReadChanged { mode, workspace, binding },
                    ControlStep::ReadMode { workspace },
                ),
                None => refused(ControlError::MissingManagedWorkspace),
            },
            None => refused(ControlError::MissingBinding),
        },
        (ControlStage::FindChanged { mode }, ControlEvent::ThreadMissing) => refused(
            ControlError::NotManaged,
        ),
        (ControlStage::ReadChanged { mode, workspace, binding }, ControlEvent::Mode(read)) => (
            ControlStage::FindLogged { mode, workspace, binding, read },
            ControlStep::FindThread,
        ),
        (
            ControlStage::FindLogged { mode, workspace, binding, read },
            ControlEvent::ThreadFound(_),
        ) => (
            ControlStage::LogChanged { workspace, binding, read },
            ControlStep::Log { log: ControlLog::ExecutionModeChanged(mode) },
        ),
        (ControlStage::FindLogged { .. }, ControlEvent::ThreadMissing) => refused(
            ControlError::NotActive,
        ),
        (ControlStage::LogChanged { workspace, binding, read }, ControlEvent::Done) => ended(
            Ok(ControlOutcome::ExecutionMode { workspace, binding, mode: read }),
        ),
        (
            ControlStage::ProbeLauncher { target, session_id, workspace, current },
            ControlEvent::Launcher { mode, available },
        ) => if !available {
            refused(ControlError::LauncherUnavailable)
        } else {
            match launch_session(target, session_id, current) {
                Ok(session) => {
                    let plan = LaunchPlan {
                        workspace,
                        thread_key: run.thread_key,
                        execution_mode: mode,
                        session,
                    };
                    (ControlStage::Launch { target, plan }, ControlStep::Launch { plan })
                },
                Err(error) => refused(error),
            }
        },
        (ControlStage::Launch { target, plan }, ControlEvent::Done) => (
            ControlStage::FindLaunched { target, plan },
            ControlStep::FindThread,
        ),
        (ControlStage::FindLaunched { target, plan }, ControlEvent::ThreadFound(_)) => (
            ControlStage::LogLaunched { target, plan },
            ControlStep::Log { log: ControlLog::Launched(target) },
        ),
        (ControlStage::FindLaunched { target, plan }, ControlEvent::ThreadMissing) => refused(
            ControlError::NotActive,
        ),
        (ControlStage::LogLaunched { target, plan }, ControlEvent::Done) => ended(
            Ok(ControlOutcome::Launched { target, plan }),
        ),
        (ControlStage::SetCollaboration { mode }, ControlEvent::Done) => (
            ControlStage::LogCollaboration { mode },
            ControlStep::Log { log: ControlLog::CollaborationModeChanged(mode) },
        ),
        (ControlStage::LogCollaboration { mode }, ControlEvent::Done) => ended(
            Ok(ControlOutcome::CollaborationMode { mode }),
        ),
        (ControlStage::ResolveRun { workspace }, ControlEvent::State(state)) => if state.run_status
            == RunStatus::Running {
            (ControlStage::ReadBusy { workspace }, ControlStep::ReadBusy)
        } else {
            refused(ControlError::NoTurn)
        },
        (ControlStage::ReadBusy { workspace }, ControlEvent::Busy(busy)) => match busy {
            Some(busy) => busy_found(workspace, busy),
            None => refused(ControlError::NoTurn),
        },
        (ControlStage::Interrupt { workspace, session_id, turn_id }, ControlEvent::Done) => (
            ControlStage::RecordInterrupt { session_id, turn_id },
            ControlStep::RecordInterrupt { workspace, session_id, turn_id },
        ),
        (ControlStage::RecordInterrupt { session_id, turn_id }, ControlEvent::Done) => (
            ControlStage::LogInterrupt { session_id, turn_id },
            ControlStep::Log { log: ControlLog::InterruptRequested { session_id, turn_id } },
        ),
        (ControlStage::LogInterrupt { session_id, turn_id }, ControlEvent::Done) => ended(
            Ok(
                ControlOutcome::Interrupted {
                    session_id,
                    turn_id: Some(turn_id),
                    state: InterruptRunningTurnState::Requested,
                },
            ),
        ),
        _ => refused(ControlError::OutOfTurn),
    }
}

impl LaunchSession {
    /// A copy.
    pub fn copy(&self) -> (res: Self)
        ensures
            res == *self,
    {
        match self {
            LaunchSession::New => LaunchSession::New,
            LaunchSession::Current(id) => LaunchSession::Current(id.clone()),
            LaunchSession::Resume(id) => LaunchSession::Resume(id.clone()),
        }
    }
}

impl LaunchPlan {
    /// A copy.
    pub fn copy(&self) -> (res: Self)
        ensures
            res == *self,
    {
        LaunchPlan {
            workspace: self.workspace.clone(),
            thread_key: self.thread_key.clone(),
            execution_mode: self.execution_mode,
            session: self.session.copy(),
        }
    }
}

/// The end of an action.
fn end(outcome: Result<ControlOutcome, ControlError>) -> (res: (ControlStage, ControlStep))
    ensures
        res == ended(outcome),
{
    (ControlStage::Finished, ControlStep::Finish { outcome })
}

/// The end of an action that was not done.
fn refuse(error: ControlError) -> (res: (ControlStage, ControlStep))
    ensures
        res == refused(error),
{
    end(Err(error))
}

/// What a request does first with the thread that it is for.
fn on_thread_found(
    request: &RuntimeControlActionRequest,
    binding: Option<SessionBinding>,
) -> (res: (ControlStage, ControlStep))
    ensures
        res == thread_found(*request, binding),
{
    match request {
        RuntimeControlActionRequest::SetThreadCollaborationMode { mode } => {
            return (
                ControlStage::SetCollaboration { mode: *mode },
                ControlStep::SetCollaboration { mode: *mode },
            );
        },
        _ => {},
    }
    let binding = match binding {
        Some(binding) => binding,
        None => {
            return match request {
                RuntimeControlActionRequest::SetWorkspaceExecutionMode { .. } => refuse(
                    ControlError::MissingBinding,
                ),
                RuntimeControlActionRequest::LaunchLocalSession { .. } => refuse(
                    ControlError::MissingBinding,
                ),
                _ => refuse(ControlError::Unbound),
            };
        },
    };
    match request {
        RuntimeControlActionRequest::StartFreshSession => match binding.workspace_cwd {
            Some(workspace) => (
                ControlStage::StartSession,
                ControlStep::StartSession { workspace },
            ),
            None => refuse(ControlError::MissingWorkspace),
        },
        RuntimeControlActionRequest::RepairSessionBinding => {
            match binding.current_codex_thread_id {
                Some(session_id) => {
                    if text::trim(session_id.as_str()).is_empty() {
                        return refuse(ControlError::MissingSession);
                    }
                    match binding.workspace_cwd {
                        Some(workspace) => (
                            ControlStage::Reconnect,
                            ControlStep::Reconnect { workspace, session_id },
                        ),
                        None => refuse(ControlError::MissingWorkspace),
                    }
                },
                None => refuse(ControlError::MissingSession),
            }
        },
        RuntimeControlActionRequest::SetWorkspaceExecutionMode { execution_mode } => {
            match binding.workspace_cwd {
                Some(workspace) => (
                    ControlStage::ReadMode { mode: *execution_mode, workspace: workspace.clone() },
                    ControlStep::ReadMode { workspace },
                ),
                None => refuse(ControlError::MissingManagedWorkspace),
            }
        },
        RuntimeControlActionRequest::LaunchLocalSession { target, session_id } => {
            match binding.workspace_cwd {
                Some(workspace) => (
                    ControlStage::ProbeLauncher {
                        target: *target,
                        session_id: copy_opt(session_id),
                        workspace: workspace.clone(),
                        current: binding.current_codex_thread_id,
                    },
                    ControlStep::ProbeLauncher { workspace },
                ),
                None => refuse(ControlError::MissingManagedWorkspace),
            }
        },
        RuntimeControlActionRequest::SetThreadCollaborationMode { mode } => (
            ControlStage::SetCollaboration { mode: *mode },
            ControlStep::SetCollaboration { mode: *mode },
        ),
        RuntimeControlActionRequest::InterruptRunningTurn => (
            ControlStage::ResolveRun { workspace: binding.workspace_cwd },
            ControlStep::ResolveRun,
        ),
    }
}

/// A copy of a text that may be absent.
fn copy_opt(text: &Option<String>) -> (res: Option<String>)
    ensures
        res == *text,
{
    match text {
        Some(s) => Some(s.clone()),
        None => None,
    }
}

/// What a request comes to where there is no active thread with its key.
fn on_thread_missing(request: &RuntimeControlActionRequest) -> (res: ControlError)
    ensures
        res == thread_missing(*request),
{
    match request {
        RuntimeControlActionRequest::SetWorkspaceExecutionMode { .. } => ControlError::NotManaged,
        RuntimeControlActionRequest::LaunchLocalSession { .. } => ControlError::NotManaged,
        _ => ControlError::NotActive,
    }
}

/// Which session a launch opens, or why none.
fn choose_session(
    target: LaunchLocalSessionTarget,
    session_id: Option<String>,
    current: Option<String>,
) -> (res: Result<LaunchSession, ControlError>)
    ensures
        res == launch_session(target, session_id, current),
{
    match target {
        LaunchLocalSessionTarget::New => Ok(LaunchSession::New),
        LaunchLocalSessionTarget::ContinueCurrent => match current {
            Some(id) => Ok(LaunchSession::Current(id)),
            None => Err(ControlError::MissingCurrentSession),
        },
        LaunchLocalSessionTarget::Resume => match session_id {
            Some(id) => {
                if text::trim(id.as_str()).is_empty() {
                    Err(ControlError::MissingResumeSession)
                } else {
                    Ok(LaunchSession::Resume(id))
                }
            },
            None => Err(ControlError::MissingResumeSession),
        },
    }
}

/// What is done about a session that runs a turn.
fn on_busy(workspace: Option<String>, busy: SessionCurrentStatus) -> (res: (
    ControlStage,
    ControlStep,
))
    ensures
        res == busy_found(workspace, busy),
{
    if busy.phase == WorkspaceStatusPhase::TurnFinalizing {
        return end(
            Ok(
                ControlOutcome::Interrupted {
                    session_id: busy.session_id,
                    turn_id: busy.turn_id,
                    state: InterruptRunningTurnState::AlreadyRequested,
                },
            ),
        );
    }
    match busy.turn_id {
        Some(turn_id) => match workspace {
            Some(workspace) => (
                ControlStage::Interrupt {
                    workspace: workspace.clone(),
                    session_id: busy.session_id.clone(),
                    turn_id: turn_id.clone(),
                },
                ControlStep::Interrupt { workspace, session_id: busy.session_id, turn_id },
            ),
            None => refuse(ControlError::MissingWorkspace),
        },
        None => refuse(ControlError::UnknownTurn(busy.session_id)),
    }
}

impl ControlRun {
    /// Starts to carry out a request. One that is not complete ends at once.
    pub fn begin(thread_key: String, request: RuntimeControlActionRequest) -> (res: (
        Self,
        ControlStep,
    ))
        ensures
            res.0.thread_key == thread_key,
            res.0.request == request,
            request.is_valid() ==> res.0.stage == ControlStage::FindThread && res.1
                == ControlStep::FindThread,
            !request.is_valid() ==> (res.0.stage, res.1) == refused(
                ControlError::MissingResumeSession,
            ),
    {
        if !request.validate() {
            let (stage, step) = refuse(ControlError::MissingResumeSession);
            return (ControlRun { thread_key, request, stage }, step);
        }
        (ControlRun { thread_key, request, stage: ControlStage::FindThread }, ControlStep::FindThread)
    }

    /// Goes on after what happened outside.
    pub fn advance(self, event: ControlEvent) -> (res: (Self, ControlStep))
        ensures
            res.0.thread_key == self.thread_key,
            res.0.request == self.request,
            (res.0.stage, res.1) == control_next(self, event),
    {
        let thread_key = self.thread_key;
        let request = self.request;
        let (stage, step) = match (self.stage, event) {
            (ControlStage::Finished, _) => refuse(ControlError::OutOfTurn),
            (_, ControlEvent::Failed(reason)) => refuse(ControlError::Outside(reason)),
            (ControlStage::FindThread, ControlEvent::ThreadFound(binding)) => on_thread_found(
                &request,
                binding,
            ),
            (ControlStage::FindThread, ControlEvent::ThreadMissing) => refuse(
                on_thread_missing(&request),
            ),
            (ControlStage::StartSession, ControlEvent::Done) => (
                ControlStage::LogStart,
                ControlStep::Log { log: ControlLog::StartedFresh },
            ),
            (ControlStage::LogStart, ControlEvent::Done) => (
                ControlStage::ReadStarted,
                ControlStep::ReadBinding,
            ),
            (ControlStage::ReadStarted, ControlEvent::Binding(binding)) => end(
                Ok(ControlOutcome::Started { binding }),
            ),
            (ControlStage::Reconnect, ControlEvent::Done) => (
                ControlStage::MarkRepaired { verified: true },
                ControlStep::MarkVerified,
            ),
            (ControlStage::Reconnect, ControlEvent::Refused(reason)) => (
                ControlStage::MarkRepaired { verified: false },
                ControlStep::MarkBroken { reason },
            ),
            (ControlStage::MarkRepaired { verified }, ControlEvent::Done) => (
                ControlStage::LogRepaired { verified },
                ControlStep::Log {
                    log: if verified {
                        ControlLog::Revalidated
                    } else {
                        ControlLog::RevalidationFailed
                    },
                },
            ),
            (ControlStage::LogRepaired { verified }, ControlEvent::Done) => (
                ControlStage::ReadRepaired { verified },
                ControlStep::ReadBinding,
            ),
            (ControlStage::ReadRepaired { verified }, ControlEvent::Binding(binding)) => end(
                Ok(ControlOutcome::Repaired { verified, binding }),
            ),
            (ControlStage::ReadMode { mode, workspace }, ControlEvent::Mode(_)) => (
                ControlStage::WriteMode { mode },
                ControlStep::WriteMode { workspace, mode },
            ),
            (ControlStage::WriteMode { mode }, ControlEvent::Done) => (
                ControlStage::FindChanged { mode },
                ControlStep::FindThread,
            ),
            (ControlStage::FindChanged { mode }, ControlEvent::ThreadFound(binding)) => {
                match binding {
                    Some(binding) => match copy_opt(&binding.workspace_cwd) {
                        Some(workspace) => (
                            ControlStage::ReadChanged {
                                mode,
                                workspace: workspace.clone(),
                                binding,
                            },
                            ControlStep::ReadMode { workspace },
                        ),
                        None => refuse(ControlError::MissingManagedWorkspace),
                    },
                    None => refuse(ControlError::MissingBinding),
                }
            },
            (ControlStage::FindChanged { .. }, ControlEvent::ThreadMissing) => refuse(
                ControlError::NotManaged,
            ),
            (ControlStage::ReadChanged { mode, workspace, binding }, ControlEvent::Mode(read)) => (
                ControlStage::FindLogged { mode, workspace, binding, read },
                ControlStep::FindThread,
            ),
            (
                ControlStage::FindLogged { mode, workspace, binding, read },
                ControlEvent::ThreadFound(_),
            ) => (
                ControlStage::LogChanged { workspace, binding, read },
                ControlStep::Log { log: ControlLog::ExecutionModeChanged(mode) },
            ),
            (ControlStage::FindLogged { .. }, ControlEvent::ThreadMissing) => refuse(
                ControlError::NotActive,
            ),
            (ControlStage::LogChanged { workspace, binding, read }, ControlEvent::Done) => end(
                Ok(ControlOutcome::ExecutionMode { workspace, binding, mode: read }),
            ),
            (
                ControlStage::ProbeLauncher { target, session_id, workspace, current },
                ControlEvent::Launcher { mode, available },
            ) => {
                if !available {
                    refuse(ControlError::LauncherUnavailable)
                } else {
                    match choose_session(target, session_id, current) {
                        Ok(session) => {
                            let plan = LaunchPlan {
                                workspace,
                                thread_key: thread_key.clone(),
                                execution_mode: mode,
                                session,
                            };
                            (
                                ControlStage::Launch { target, plan: plan.copy() },
                                ControlStep::Launch { plan },
                            )
                        },
                        Err(error) => refuse(error),
                    }
                }
            },
            (ControlStage::Launch { target, plan }, ControlEvent::Done) => (
                ControlStage::FindLaunched { target, plan },
                ControlStep::FindThread,
            ),
            (ControlStage::FindLaunched { target, plan }, ControlEvent::ThreadFound(_)) => (
                ControlStage::LogLaunched { target, plan },
                ControlStep::Log { log: ControlLog::Launched(target) },
            ),
            (ControlStage::FindLaunched { .. }, ControlEvent::ThreadMissing) => refuse(
                ControlError::NotActive,
            ),
            (ControlStage::LogLaunched { target, plan }, ControlEvent::Done) => end(
                Ok(ControlOutcome::Launched { target, plan }),
            ),
            (ControlStage::SetCollaboration { mode }, ControlEvent::Done) => (
                ControlStage::LogCollaboration { mode },
                ControlStep::Log { log: ControlLog::CollaborationModeChanged(mode) },
            ),
            (ControlStage::LogCollaboration { mode }, ControlEvent::Done) => end(
                Ok(ControlOutcome::CollaborationMode { mode }),
            ),
            (ControlStage::ResolveRun { workspace }, ControlEvent::State(state)) => {
                if state.is_running() {
                    (ControlStage::ReadBusy { workspace }, ControlStep::ReadBusy)
                } else {
                    refuse(ControlError::NoTurn)
                }
            },
            (ControlStage::ReadBusy { workspace }, ControlEvent::Busy(busy)) => match busy {
                Some(busy) => on_busy(workspace, busy),
                None => refuse(ControlError::NoTurn),
            },
            (ControlStage::Interrupt { workspace, session_id, turn_id }, ControlEvent::Done) => (
                ControlStage::RecordInterrupt {
                    session_id: session_id.clone(),
                    turn_id: turn_id.clone(),
                },
                ControlStep::RecordInterrupt { workspace, session_id, turn_id },
            ),
            (ControlStage::RecordInterrupt { session_id, turn_id }, ControlEvent::Done) => (
                ControlStage::LogInterrupt {
                    session_id: session_id.clone(),
                    turn_id: turn_id.clone(),
                },
                ControlStep::Log { log: ControlLog::InterruptRequested { session_id, turn_id } },
            ),
            (ControlStage::LogInterrupt { session_id, turn_id }, ControlEvent::Done) => end(
                Ok(
                    ControlOutcome::Interrupted {
                        session_id,
                        turn_id: Some(turn_id),
                        state: InterruptRunningTurnState::Requested,
                    },
                ),
            ),
            _ => refuse(ControlError::OutOfTurn),
        };
        (ControlRun { thread_key, request, stage }, step)
    }
}


/// How many steps may still follow.
pub open spec fn steps_left(stage: ControlStage) -> nat {
    match stage {
        ControlStage::FindThread => 10,
        ControlStage::ReadMode { .. } => 8,
        ControlStage::WriteMode { .. } => 7,
        ControlStage::FindChanged { .. } => 6,
        ControlStage::ProbeLauncher { .. } => 6,
        ControlStage::ResolveRun { .. } => 6,
        ControlStage::Reconnect => 6,
        ControlStage::ReadBusy { .. } => 5,
        ControlStage::Launch { .. } => 5,
        ControlStage::StartSession => 5,
        ControlStage::MarkRepaired { .. } => 5,
        ControlStage::Interrupt { .. } => 4,
        ControlStage::FindLaunched { .. } => 4,
        ControlStage::SetCollaboration { .. } => 4,
        ControlStage::LogRepaired { .. } => 4,
        ControlStage::LogStart => 4,
        ControlStage::ReadChanged { .. } => 5,
        ControlStage::FindLogged { .. } => 4,
        ControlStage::RecordInterrupt { .. } => 3,
        ControlStage::LogLaunched { .. } => 3,
        ControlStage::LogCollaboration { .. } => 3,
        ControlStage::ReadRepaired { .. } => 3,
        ControlStage::ReadStarted => 3,
        ControlStage::LogChanged { .. } => 3,
        ControlStage::LogInterrupt { .. } => 2,
        ControlStage::Finished => 0,
    }
}

/// Every action ends: each step brings it nearer to its end, whatever happens outside.
pub proof fn law_control_ends(run: ControlRun, event: ControlEvent)
    requires
        !(run.stage is Finished),
    ensures
        steps_left(control_next(run, event).0) < steps_left(run.stage),
        control_next(run, event).0 is Finished <==> control_next(run, event).1 is Finish,
{
}

/// A turn is interrupted only where one runs, it is not settling already, and its name is
/// known; it is then the turn that was found to run.
pub proof fn law_interrupt_needs_running_turn(run: ControlRun, event: ControlEvent)
    requires
        control_next(run, event).1 is Interrupt,
    ensures
        run.stage is ReadBusy,
        event matches ControlEvent::Busy(Some(busy)) && busy.phase
            != WorkspaceStatusPhase::TurnFinalizing && busy.turn_id == Some(
            control_next(run, event).1->Interrupt_turn_id,
        ) && busy.session_id == control_next(run, event).1->Interrupt_session_id,
{
}

/// Nothing is done for a thread that is not active.
pub proof fn law_inactive_thread_is_refused(run: ControlRun)
    requires
        run.stage is FindThread,
    ensures
        control_next(run, ControlEvent::ThreadMissing) == refused(thread_missing(run.request)),
{
}

/// The reason why a binding is broken, where there is a binding.
fn broken_reason(binding: Option<SessionBinding>) -> (res: Option<String>)
    ensures
        res == match binding {
            Some(binding) => binding.session_broken_reason,
            None => None,
        },
{
    match binding {
        Some(binding) => binding.session_broken_reason,
        None => None,
    }
}

impl ControlOutcome {
    /// The action that was done.
    pub open spec fn kind(self) -> RuntimeControlAction {
        match self {
            ControlOutcome::Started { binding } => RuntimeControlAction::StartFreshSession,
            ControlOutcome::Repaired { verified, binding } => {
                RuntimeControlAction::RepairSessionBinding
            },
            ControlOutcome::ExecutionMode { workspace, binding, mode } => {
                RuntimeControlAction::SetWorkspaceExecutionMode
            },
            ControlOutcome::Launched { target, plan } => RuntimeControlAction::LaunchLocalSession,
            ControlOutcome::CollaborationMode { mode } => {
                RuntimeControlAction::SetThreadCollaborationMode
            },
            ControlOutcome::Interrupted { session_id, turn_id, state } => {
                RuntimeControlAction::InterruptRunningTurn
            },
        }
    }

    /// Whether a result reports what the action has come to.
    pub open spec fn is_reported(self, thread_key: String, result: RuntimeControlActionResult) -> bool {
        match (self, result) {
            (
                ControlOutcome::Started { binding },
                RuntimeControlActionResult::StartFreshSession {
                    thread_key: key,
                    current_codex_thread_id,
                },
            ) => {
                &&& key == thread_key
                &&& current_codex_thread_id == match binding {
                    Some(binding) => binding.current_codex_thread_id,
                    None => None,
                }
            },
            (
                ControlOutcome::Repaired { verified, binding },
                RuntimeControlActionResult::RepairSessionBinding {
                    thread_key: key,
                    verified: reported,
                    session_broken_reason,
                },
            ) => {
                &&& key == thread_key
                &&& reported == verified
                &&& session_broken_reason == match binding {
                    Some(binding) => binding.session_broken_reason,
                    None => None,
                }
            },
            (
                ControlOutcome::ExecutionMode { workspace, binding, mode },
                RuntimeControlActionResult::SetWorkspaceExecutionMode {
                    thread_key: key,
                    workspace_cwd,
                    workspace_execution_mode,
                    current_execution_mode,
                    current_approval_policy,
                    current_sandbox_policy,
                    mode_drift,
                },
            ) => {
                &&& key == thread_key
                &&& workspace_cwd == workspace
                &&& workspace_execution_mode == mode
                &&& current_execution_mode == binding.current_execution_mode
                &&& current_approval_policy == binding.current_approval_policy
                &&& current_sandbox_policy == binding.current_sandbox_policy
                &&& mode_drift == (binding.current_execution_mode != Some(mode))
            },
            (
                ControlOutcome::Launched { target, plan },
                RuntimeControlActionResult::LaunchLocalSession {
                    thread_key: key,
                    target: reported,
                    command,
                    launched,
                },
            ) => {
                &&& key == thread_key
                &&& reported == target
                &&& command@ == plan.command_text()
                &&& launched
            },
            (
                ControlOutcome::CollaborationMode { mode },
                RuntimeControlActionResult::SetThreadCollaborationMode {
                    thread_key: key,
                    mode: reported,
                },
            ) => key == thread_key && reported == mode,
            (
                ControlOutcome::Interrupted { session_id, turn_id, state },
                RuntimeControlActionResult::InterruptRunningTurn {
                    thread_key: key,
                    session_id: session,
                    turn_id: turn,
                    state: reported,
                },
            ) => key == thread_key && session == session_id && turn == turn_id && reported == state,
            _ => false,
        }
    }

    /// The answer to the request.
    pub fn into_envelope(self, thread_key: String) -> (res: RuntimeControlActionEnvelope)
        ensures
            res.ok,
            res.action == self.kind(),
            self.is_reported(thread_key, res.result),
    {
        match self {
            ControlOutcome::Started { binding } => RuntimeControlActionEnvelope {
                ok: true,
                action: RuntimeControlAction::StartFreshSession,
                result: RuntimeControlActionResult::StartFreshSession {
                    thread_key,
                    current_codex_thread_id: match binding {
                        Some(binding) => binding.current_codex_thread_id,
                        None => None,
                    },
                },
            },
            ControlOutcome::Repaired { verified, binding } => RuntimeControlActionEnvelope {
                ok: true,
                action: RuntimeControlAction::RepairSessionBinding,
                result: RuntimeControlActionResult::RepairSessionBinding {
                    thread_key,
                    verified,
                    session_broken_reason: broken_reason(binding),
                },
            },
            ControlOutcome::ExecutionMode { workspace, binding, mode } => {
                let mode_drift = match binding.current_execution_mode {
                    Some(current) => current != mode,
                    None => true,
                };
                RuntimeControlActionEnvelope {
                    ok: true,
                    action: RuntimeControlAction::SetWorkspaceExecutionMode,
                    result: RuntimeControlActionResult::SetWorkspaceExecutionMode {
                        thread_key,
                        workspace_cwd: workspace,
                        workspace_execution_mode: mode,
                        current_execution_mode: binding.current_execution_mode,
                        current_approval_policy: binding.current_approval_policy,
                        current_sandbox_policy: binding.current_sandbox_policy,
                        mode_drift,
                    },
                }
            },
            ControlOutcome::Launched { target, plan } => RuntimeControlActionEnvelope {
                ok: true,
                action: RuntimeControlAction::LaunchLocalSession,
                result: RuntimeControlActionResult::LaunchLocalSession {
                    thread_key,
                    target,
                    command: plan.command(),
                    launched: true,
                },
            },
            ControlOutcome::CollaborationMode { mode } => RuntimeControlActionEnvelope {
                ok: true,
                action: RuntimeControlAction::SetThreadCollaborationMode,
                result: RuntimeControlActionResult::SetThreadCollaborationMode { thread_key, mode },
            },
            ControlOutcome::Interrupted { session_id, turn_id, state } => {
                RuntimeControlActionEnvelope {
                    ok: true,
                    action: RuntimeControlAction::InterruptRunningTurn,
                    result: RuntimeControlActionResult::InterruptRunningTurn {
                        thread_key,
                        session_id,
                        turn_id,
                        state,
                    },
                }
            },
        }
    }
}

/// Whether a stage belongs to a request of this kind.
pub open spec fn stage_fits(request: RuntimeControlActionRequest, stage: ControlStage) -> bool {
    match stage {
        ControlStage::FindThread => true,
        ControlStage::Finished => true,
        ControlStage::StartSession => request is StartFreshSession,
        ControlStage::LogStart => request is StartFreshSession,
        ControlStage::ReadStarted => request is StartFreshSession,
        ControlStage::Reconnect => request is RepairSessionBinding,
        ControlStage::MarkRepaired { .. } => request is RepairSessionBinding,
        ControlStage::LogRepaired { .. } => request is RepairSessionBinding,
        ControlStage::ReadRepaired { .. } => request is RepairSessionBinding,
        ControlStage::ReadMode { mode, .. } => request
            == RuntimeControlActionRequest::SetWorkspaceExecutionMode { execution_mode: mode },
        ControlStage::WriteMode { mode } => request
            == RuntimeControlActionRequest::SetWorkspaceExecutionMode { execution_mode: mode },
        ControlStage::FindChanged { mode } => request
            == RuntimeControlActionRequest::SetWorkspaceExecutionMode { execution_mode: mode },
        ControlStage::ReadChanged { mode, .. } => request
            == RuntimeControlActionRequest::SetWorkspaceExecutionMode { execution_mode: mode },
        ControlStage::FindLogged { mode, .. } => request
            == RuntimeControlActionRequest::SetWorkspaceExecutionMode { execution_mode: mode },
        ControlStage::LogChanged { .. } => request is SetWorkspaceExecutionMode,
        ControlStage::ProbeLauncher { target, session_id, .. } => request
            == RuntimeControlActionRequest::LaunchLocalSession { target, session_id },
        ControlStage::Launch { target, .. } => request matches
            RuntimeControlActionRequest::LaunchLocalSession { target: wanted, .. } && wanted
            == target,
        ControlStage::FindLaunched { target, .. } => request matches
            RuntimeControlActionRequest::LaunchLocalSession { target: wanted, .. } && wanted
            == target,
        ControlStage::LogLaunched { target, .. } => request matches
            RuntimeControlActionRequest::LaunchLocalSession { target: wanted, .. } && wanted
            == target,
        ControlStage::SetCollaboration { mode } => request
            == RuntimeControlActionRequest::SetThreadCollaborationMode { mode },
        ControlStage::LogCollaboration { mode } => request
            == RuntimeControlActionRequest::SetThreadCollaborationMode { mode },
        ControlStage::ResolveRun { .. } => request is InterruptRunningTurn,
        ControlStage::ReadBusy { .. } => request is InterruptRunningTurn,
        ControlStage::Interrupt { .. } => request is InterruptRunningTurn,
        ControlStage::RecordInterrupt { .. } => request is InterruptRunningTurn,
        ControlStage::LogInterrupt { .. } => request is InterruptRunningTurn,
    }
}

/// A request is answered in kind: every stage belongs to the request, and an action that was
/// done is the one that was asked for.
pub proof fn law_request_is_answered_in_kind(run: ControlRun, event: ControlEvent)
    requires
        stage_fits(run.request, run.stage),
    ensures
        stage_fits(run.request, control_next(run, event).0),
        control_next(run, event).1 matches ControlStep::Finish { outcome: Ok(outcome) }
            ==> outcome.kind() == run.request.kind(),
{
}

/// What is put on record about a thread.
#[derive(Debug, Clone, PartialEq, Eq)]
pub enum ThreadLog {
    Created,
    Bound { workspace: String },
    AdoptedTui,
    RejectedTui,
    Archived,
    Restored { title: String, message_thread_id: i32 },
}

impl ThreadLog {
    /// The line that is put on record.
    pub open spec fn line(self, origin: Seq<char>) -> Seq<char> {
        match self {
            ThreadLog::Created => "Telegram thread created from desktop or management control."@,
            ThreadLog::Bound { workspace } => "Bound Telegram thread to workspace "@ + workspace@
                + " from "@ + origin + "."@,
            ThreadLog::AdoptedTui => "Adopted the active TUI session from "@ + origin + "."@,
            ThreadLog::RejectedTui => "Rejected the active TUI session from "@ + origin + "."@,
            ThreadLog::Archived => "Thread archived from "@ + origin + "."@,
            ThreadLog::Restored { title, message_thread_id } => "Thread restored from "@ + origin
                + " into Telegram thread \""@ + title@ + "\" (message_thread_id "@
                + text::signed_decimal(message_thread_id as int) + ")."@,
        }
    }

    /// The line that is put on record.
    pub fn to_line(&self, origin: &str) -> (res: String)
        ensures
            res@ == self.line(origin@),
    {
        match self {
            ThreadLog::Created => {
                "Telegram thread created from desktop or management control.".to_owned()
            },
            ThreadLog::Bound { workspace } => text::concat5(
                "Bound Telegram thread to workspace ",
                workspace.as_str(),
                " from ",
                origin,
                ".",
            ),
            ThreadLog::AdoptedTui => text::concat3(
                "Adopted the active TUI session from ",
                origin,
                ".",
            ),
            ThreadLog::RejectedTui => text::concat3(
                "Rejected the active TUI session from ",
                origin,
                ".",
            ),
            ThreadLog::Archived => text::concat3("Thread archived from ", origin, "."),
            ThreadLog::Restored { title, message_thread_id } => {
                let id = text::signed_decimal_text(*message_thread_id as i64);
                let mut res = text::concat5(
                    "Thread restored from ",
                    origin,
                    " into Telegram thread \"",
                    title.as_str(),
                    "\" (message_thread_id ",
                );
                res.push_str(id.as_str());
                res.push_str(").");
                res
            },
        }
    }
}

/// What adding a workspace comes to.
#[derive(Debug)]
pub enum WorkspaceAddResolution {
    Existing(ThreadRecord),
    Create { canonical_workspace_cwd: String, suggested_title: String },
}

/// Adding a workspace creates a thread, unless something blocks it; then the reason is given.
pub fn resolve_workspace_add(preflight: WorkspaceAddPreflight, workspace_path: &str) -> (res: Result<
    WorkspaceAddResolution,
    String,
>)
    ensures
        match res {
            Ok(WorkspaceAddResolution::Create { canonical_workspace_cwd, suggested_title }) => {
                &&& preflight.reason() is None
                &&& canonical_workspace_cwd == preflight.probe.canonical_workspace_cwd
                &&& suggested_title@ == thread_title(workspace_path@)
            },
            Ok(WorkspaceAddResolution::Existing(_)) => false,
            Err(reason) => preflight.reason() == Some(reason@),
        },
{
    match preflight.blocking_reason() {
        Some(reason) => Err(reason),
        None => Ok(
            WorkspaceAddResolution::Create {
                canonical_workspace_cwd: preflight.probe.canonical_workspace_cwd,
                suggested_title: workspace_thread_title(workspace_path),
            },
        ),
    }
}

/// What the repair of a session has come to.
#[derive(Debug)]
pub struct SessionRepairResult {
    pub record: ThreadRecord,
    pub verified: bool,
}

/// Why a thread cannot be bound to a workspace, where it cannot: another active thread is.
pub fn bind_conflict(thread_key: &str, active_thread_keys: &Vec<String>, workspace: &str) -> (res:
    Option<String>)
    ensures
        res is Some <==> exists|i: int|
            0 <= i < active_thread_keys@.len() && (#[trigger] active_thread_keys@[i])@
                != thread_key@,
        res matches Some(reason) ==> reason@
            == "Workspace bind failed: another active thread is already bound to `"@ + workspace@
            + "`."@,
{
    let mut i: usize = 0;
    while i < active_thread_keys.len()
        invariant
            i <= active_thread_keys@.len(),
            forall|k: int| 0 <= k < i ==> (#[trigger] active_thread_keys@[k])@ == thread_key@,
        decreases active_thread_keys@.len() - i,
    {
        if !text::same_text(active_thread_keys[i].as_str(), thread_key) {
            return Some(
                text::concat3(
                    "Workspace bind failed: another active thread is already bound to `",
                    workspace,
                    "`.",
                ),
            );
        }
        i += 1;
    }
    None
}

/// How far a shell has read a word: outside of quotes, between single or between double quotes, and
/// what the word is so far.
pub enum ShellQuote {
    Outside,
    Single,
    Double,
}

/// A word as a shell reads it, as far as it is made of quotes and of characters that mean
/// themselves there.
pub open spec fn shell_word(s: Seq<char>) -> (ShellQuote, Seq<char>)
    decreases s.len(),
{
    if s.len() == 0 {
        (ShellQuote::Outside, Seq::empty())
    } else {
        let (quote, word) = shell_word(s.drop_last());
        let c = s.last();
        match quote {
            ShellQuote::Outside => if c == '\'' {
                (ShellQuote::Single, word)
            } else if c == '"' {
                (ShellQuote::Double, word)
            } else {
                (ShellQuote::Outside, word.push(c))
            },
            ShellQuote::Single => if c == '\'' {
                (ShellQuote::Outside, word)
            } else {
                (ShellQuote::Single, word.push(c))
            },
            ShellQuote::Double => if c == '"' {
                (ShellQuote::Outside, word)
            } else {
                (ShellQuote::Double, word.push(c))
            },
        }
    }
}

/// What a shell has read between single quotes is the text that was put there.
proof fn lemma_shell_reads_back(value: Seq<char>)
    ensures
        shell_word("'"@ + text::replaced(value, '\'', "'\"'\"'"@)) == (ShellQuote::Single, value),
    decreases value.len(),
{
    reveal_strlit("'");
    reveal_strlit("'\"'\"'");
    let open = "'"@;
    let by = "'\"'\"'"@;
    assert(by =~= seq!['\'', '"', '\'', '"', '\'']);
    if value.len() == 0 {
        let all = open + text::replaced(value, '\'', by);
        assert(all =~= seq!['\'']);
        assert(all.drop_last() =~= Seq::empty());
        assert(shell_word(all.drop_last()) == (ShellQuote::Outside, Seq::<char>::empty()));
    } else {
        let before = value.drop_last();
        let c = value.last();
        lemma_shell_reads_back(before);
        let read = open + text::replaced(before, '\'', by);
        let all = open + text::replaced(value, '\'', by);
        assert(before.push(c) =~= value);
        if c == '\'' {
            let a1 = read.push('\'');
            let a2 = a1.push('"');
            let a3 = a2.push('\'');
            let a4 = a3.push('"');
            assert(all =~= a4.push('\''));
            assert(a1.drop_last() =~= read);
            assert(a2.drop_last() =~= a1);
            assert(a3.drop_last() =~= a2);
            assert(a4.drop_last() =~= a3);
            assert(all.drop_last() =~= a4);
            assert(shell_word(a1) == (ShellQuote::Outside, before));
            assert(shell_word(a2) == (ShellQuote::Double, before));
            assert(shell_word(a3) == (ShellQuote::Double, value));
            assert(shell_word(a4) == (ShellQuote::Outside, value));
        } else {
            assert(all =~= read.push(c));
            assert(all.drop_last() =~= read);
        }
    }
}

/// A text that was quoted for a shell is read back by the shell as it was, whatever it holds.
pub proof fn law_quoted_text_reads_back(value: Seq<char>)
    ensures
        shell_word(quoted(value)) == (ShellQuote::Outside, value),
{
    lemma_shell_reads_back(value);
    reveal_strlit("'");
    let inner = "'"@ + text::replaced(value, '\'', "'\"'\"'"@);
    assert(quoted(value) =~= inner.push('\''));
    assert(quoted(value).drop_last() =~= inner);
}

/// How far AppleScript has read a text: before it, in it, behind a backslash in it, or behind it.
pub enum ScriptQuote {
    Before,
    Inside,
    Escaped,
    Behind,
}

/// A text between double quotes, as AppleScript reads it: a backslash stands before a character
/// that means itself.
pub open spec fn script_text(s: Seq<char>) -> (ScriptQuote, Seq<char>)
    decreases s.len(),
{
    if s.len() == 0 {
        (ScriptQuote::Before, Seq::empty())
    } else {
        let (quote, word) = script_text(s.drop_last());
        let c = s.last();
        match quote {
            ScriptQuote::Before => if c == '"' {
                (ScriptQuote::Inside, word)
            } else {
                (ScriptQuote::Before, word)
            },
            ScriptQuote::Inside => if c == '\\' {
                (ScriptQuote::Escaped, word)
            } else if c == '"' {
                (ScriptQuote::Behind, word)
            } else {
                (ScriptQuote::Inside, word.push(c))
            },
            ScriptQuote::Escaped => (ScriptQuote::Inside, word.push(c)),
            ScriptQuote::Behind => (ScriptQuote::Behind, word),
        }
    }
}

/// What stands for a character is put in place one character at a time.
proof fn lemma_replaced_pushed(s: Seq<char>, x: char, c: char, by: Seq<char>)
    ensures
        text::replaced(s.push(x), c, by) == text::replaced(s, c, by) + (if x == c {
            by
        } else {
            seq![x]
        }),
{
    assert(s.push(x).drop_last() =~= s);
}

/// What AppleScript has read between double quotes is the text that was put there.
proof fn lemma_script_reads_back(value: Seq<char>)
    ensures
        script_text(
            "\""@ + text::replaced(text::replaced(value, '\\', "\\\\"@), '"', "\\\""@),
        ) == (ScriptQuote::Inside, value),
    decreases value.len(),
{
    reveal_strlit("\"");
    reveal_strlit("\\\\");
    reveal_strlit("\\\"");
    let open = "\""@;
    let slashes = "\\\\"@;
    let quote = "\\\""@;
    assert(slashes =~= seq!['\\', '\\']);
    assert(quote =~= seq!['\\', '"']);
    if value.len() == 0 {
        let all = open + text::replaced(text::replaced(value, '\\', slashes), '"', quote);
        assert(all =~= seq!['"']);
        assert(all.drop_last() =~= Seq::empty());
        assert(script_text(all.drop_last()) == (ScriptQuote::Before, Seq::<char>::empty()));
    } else {
        let before = value.drop_last();
        let c = value.last();
        lemma_script_reads_back(before);
        assert(before.push(c) =~= value);
        let inner = text::replaced(before, '\\', slashes);
        let read = open + text::replaced(inner, '"', quote);
        let all = open + text::replaced(text::replaced(value, '\\', slashes), '"', quote);
        if c == '\\' {
            assert(text::replaced(value, '\\', slashes) =~= inner.push('\\').push('\\'));
            lemma_replaced_pushed(inner, '\\', '"', quote);
            lemma_replaced_pushed(inner.push('\\'), '\\', '"', quote);
            let a1 = read.push('\\');
            assert(all =~= a1.push('\\'));
            assert(a1.drop_last() =~= read);
            assert(all.drop_last() =~= a1);
            assert(script_text(a1) == (ScriptQuote::Escaped, before));
        } else {
            assert(text::replaced(value, '\\', slashes) =~= inner.push(c));
            lemma_replaced_pushed(inner, c, '"', quote);
            if c == '"' {
                let a1 = read.push('\\');
                assert(all =~= a1.push('"'));
                assert(a1.drop_last() =~= read);
                assert(all.drop_last() =~= a1);
                assert(script_text(a1) == (ScriptQuote::Escaped, before));
            } else {
                assert(all =~= read.push(c));
                assert(all.drop_last() =~= read);
            }
        }
    }
}

/// A text that was quoted for AppleScript is read back as it was, whatever it holds.
pub proof fn law_apple_quoted_text_reads_back(value: Seq<char>)
    ensures
        script_text(apple_quoted(value)) == (ScriptQuote::Behind, value),
{
    lemma_script_reads_back(value);
    reveal_strlit("\"");
    let inner = "\""@ + text::replaced(text::replaced(value, '\\', "\\\\"@), '"', "\\\""@);
    assert(apple_quoted(value) =~= inner.push('"'));
    assert(apple_quoted(value).drop_last() =~= inner);
}

/// A launch opens a new session, goes on with the one of the binding, or resumes the one that was
/// named, as it was asked to; it comes to nothing where that session is not known.
pub proof fn law_launches_open_the_session_asked_for(
    thread_key: String,
    request: RuntimeControlActionRequest,
    target: LaunchLocalSessionTarget,
    session_id: Option<String>,
    workspace: String,
    current: Option<String>,
    mode: ExecutionMode,
)
    ensures
        ({
            let stage = ControlStage::ProbeLauncher { target, session_id, workspace, current };
            let run = ControlRun { thread_key, request, stage };
            let next = control_next(run, ControlEvent::Launcher { mode, available: true });
            let is_named = session_id is Some && !text::is_blank(session_id->0@);
            &&& next.1 matches ControlStep::Launch { plan } ==> plan.workspace == workspace
                && plan.thread_key == thread_key && plan.execution_mode == mode && next.0 == (
            ControlStage::Launch { target, plan })
            &&& target is New ==> (next.1 matches ControlStep::Launch { plan } && plan.session
                is New)
            &&& target is ContinueCurrent && current is Some ==> (
            next.1 matches ControlStep::Launch { plan } && plan.session == LaunchSession::Current(
                current->0,
            ))
            &&& target is ContinueCurrent && current is None ==> next.1 == (ControlStep::Finish {
                outcome: Err(ControlError::MissingCurrentSession),
            })
            &&& target is Resume && is_named ==> (next.1 matches ControlStep::Launch { plan }
                && plan.session == LaunchSession::Resume(session_id->0))
            &&& target is Resume && !is_named ==> next.1 == (ControlStep::Finish {
                outcome: Err(ControlError::MissingResumeSession),
            })
            &&& control_next(run, ControlEvent::Launcher { mode, available: false }).1 == (
            ControlStep::Finish { outcome: Err(ControlError::LauncherUnavailable) })
        }),
{
}

/// The command of a launch starts the launcher of the workspace for the thread and in the mode of
/// the workspace. It names a session exactly where one is gone on with, and then that one, without
/// the white space around it where it was named by hand.
pub proof fn law_commands_name_what_they_launch(plan: LaunchPlan)
    ensures
        ({
            let launcher = runtime_protocol::launcher_of(plan.workspace@);
            let start = quoted(launcher) + " --thread-key "@ + quoted(plan.thread_key@) + " "@
                + if plan.execution_mode is Yolo {
                "--yolo"@
            } else {
                "--full-auto"@
            };
            &&& plan.session is New ==> plan.command_text() == start
            &&& plan.session matches LaunchSession::Current(id) ==> plan.command_text() == start
                + " resume "@ + quoted(id@)
            &&& plan.session matches LaunchSession::Resume(id) ==> plan.command_text() == start
                + " resume "@ + quoted(text::trimmed(id@))
        }),
{
}

/// A thread is asked to interrupt its turn only while it runs; a turn that settles already is not
/// interrupted again, and one whose id is not known cannot be. What is interrupted, recorded and
/// reported is the turn that was found to run.
pub proof fn law_interrupts_reach_the_running_turn(
    thread_key: String,
    request: RuntimeControlActionRequest,
    workspace: String,
    busy: SessionCurrentStatus,
    turn_id: String,
)
    requires
        busy.turn_id == Some(turn_id),
    ensures
        ({
            let stage = ControlStage::ReadBusy { workspace: Some(workspace) };
            let found = control_next(
                ControlRun { thread_key, request, stage },
                ControlEvent::Busy(Some(busy)),
            );
            let interrupted = control_next(
                ControlRun { thread_key, request, stage: found.0 },
                ControlEvent::Done,
            );
            let recorded = control_next(
                ControlRun { thread_key, request, stage: interrupted.0 },
                ControlEvent::Done,
            );
            let logged = control_next(
                ControlRun { thread_key, request, stage: recorded.0 },
                ControlEvent::Done,
            );
            let session_id = busy.session_id;
            &&& busy.phase is TurnFinalizing ==> found.1 == (ControlStep::Finish {
                outcome: Ok(
                    ControlOutcome::Interrupted {
                        session_id,
                        turn_id: Some(turn_id),
                        state: InterruptRunningTurnState::AlreadyRequested,
                    },
                ),
            })
            &&& busy.phase !is TurnFinalizing ==> {
                &&& found.1 == (ControlStep::Interrupt { workspace, session_id, turn_id })
                &&& interrupted.1 == (ControlStep::RecordInterrupt {
                    workspace,
                    session_id,
                    turn_id,
                })
                &&& recorded.1 == (ControlStep::Log {
                    log: ControlLog::InterruptRequested { session_id, turn_id },
                })
                &&& logged.1 == (ControlStep::Finish {
                    outcome: Ok(
                        ControlOutcome::Interrupted {
                            session_id,
                            turn_id: Some(turn_id),
                            state: InterruptRunningTurnState::Requested,
                        },
                    ),
                })
            }
        }),
{
}

/// An idle thread has no turn to interrupt, and neither has one of which no busy session is found;
/// a turn without an id cannot be interrupted.
pub proof fn law_idle_threads_are_not_interrupted(
    thread_key: String,
    request: RuntimeControlActionRequest,
    workspace: Option<String>,
    state: ResolvedThreadState,
    busy: SessionCurrentStatus,
)
    ensures
        ({
            let resolving = ControlRun {
                thread_key,
                request,
                stage: ControlStage::ResolveRun { workspace },
            };
            let reading = ControlRun {
                thread_key,
                request,
                stage: ControlStage::ReadBusy { workspace },
            };
            let no_turn = ControlStep::Finish { outcome: Err(ControlError::NoTurn) };
            &&& state.run_status is Idle ==> control_next(resolving, ControlEvent::State(state)).1
                == no_turn
            &&& state.run_status is Running ==> control_next(resolving, ControlEvent::State(state)).1
                is ReadBusy
            &&& control_next(reading, ControlEvent::Busy(None)).1 == no_turn
            &&& busy.turn_id is None && busy.phase !is TurnFinalizing ==> control_next(
                reading,
                ControlEvent::Busy(Some(busy)),
            ).1 == (ControlStep::Finish {
                outcome: Err(ControlError::UnknownTurn(busy.session_id)),
            })
        }),
{
}

/// A request is refused where the binding lacks what it needs: a fresh session, a launch and a mode
/// need a workspace, and a repair needs a session too. Otherwise the first step is about exactly
/// what the binding names.
pub proof fn law_requests_need_their_binding(binding: SessionBinding)
    ensures
        ({
            let fresh = thread_found(RuntimeControlActionRequest::StartFreshSession, Some(binding)).1;
            let repair = thread_found(
                RuntimeControlActionRequest::RepairSessionBinding,
                Some(binding),
            ).1;
            let has_session = binding.current_codex_thread_id is Some && !text::is_blank(
                binding.current_codex_thread_id->0@,
            );
            &&& binding.workspace_cwd matches Some(workspace) ==> fresh == (
            ControlStep::StartSession { workspace })
            &&& binding.workspace_cwd is None ==> fresh == (ControlStep::Finish {
                outcome: Err(ControlError::MissingWorkspace),
            })
            &&& !has_session ==> repair == (ControlStep::Finish {
                outcome: Err(ControlError::MissingSession),
            })
            &&& has_session && binding.workspace_cwd is None ==> repair == (ControlStep::Finish {
                outcome: Err(ControlError::MissingWorkspace),
            })
            &&& has_session && binding.workspace_cwd is Some ==> repair == (
            ControlStep::Reconnect {
                workspace: binding.workspace_cwd->0,
                session_id: binding.current_codex_thread_id->0,
            })
        }),
        thread_found(RuntimeControlActionRequest::StartFreshSession, None).1 == (
        ControlStep::Finish { outcome: Err(ControlError::Unbound) }),
        thread_found(RuntimeControlActionRequest::RepairSessionBinding, None).1 == (
        ControlStep::Finish { outcome: Err(ControlError::Unbound) }),
        thread_found(RuntimeControlActionRequest::InterruptRunningTurn, None).1 == (
        ControlStep::Finish { outcome: Err(ControlError::Unbound) }),
{
}

/// A session that answers is marked as verified and reported so; one that does not is marked as
/// broken, for the reason that was given, and reported as not verified.
pub proof fn law_repairs_tell_how_it_went(
    thread_key: String,
    request: RuntimeControlActionRequest,
    reason: String,
    binding: Option<SessionBinding>,
)
    ensures
        ({
            let stage = ControlStage::Reconnect;
            let answered = control_next(
                ControlRun { thread_key, request, stage },
                ControlEvent::Done,
            );
            let refused = control_next(
                ControlRun { thread_key, request, stage },
                ControlEvent::Refused(reason),
            );
            let verified = control_next(
                ControlRun { thread_key, request, stage: answered.0 },
                ControlEvent::Done,
            );
            let broken = control_next(
                ControlRun { thread_key, request, stage: refused.0 },
                ControlEvent::Done,
            );
            let good = control_next(
                ControlRun { thread_key, request, stage: verified.0 },
                ControlEvent::Done,
            );
            let bad = control_next(
                ControlRun { thread_key, request, stage: broken.0 },
                ControlEvent::Done,
            );
            &&& answered.1 is MarkVerified
            &&& refused.1 == (ControlStep::MarkBroken { reason })
            &&& verified.1 == (ControlStep::Log { log: ControlLog::Revalidated })
            &&& broken.1 == (ControlStep::Log { log: ControlLog::RevalidationFailed })
            &&& control_next(
                ControlRun { thread_key, request, stage: good.0 },
                ControlEvent::Binding(binding),
            ).1 == (ControlStep::Finish {
                outcome: Ok(ControlOutcome::Repaired { verified: true, binding }),
            })
            &&& control_next(
                ControlRun { thread_key, request, stage: bad.0 },
                ControlEvent::Binding(binding),
            ).1 == (ControlStep::Finish {
                outcome: Ok(ControlOutcome::Repaired { verified: false, binding }),
            })
        }),
{
}

/// The mode that is written, put on record and reported is the one that was asked for: an execution
/// mode is written to the workspace of the binding, a collaboration mode to the thread.
pub proof fn law_modes_are_set_as_asked(
    thread_key: String,
    binding: SessionBinding,
    workspace: String,
    execution_mode: ExecutionMode,
    before: ExecutionMode,
    mode: CollaborationMode,
)
    requires
        binding.workspace_cwd == Some(workspace),
    ensures
        ({
            let request = RuntimeControlActionRequest::SetWorkspaceExecutionMode { execution_mode };
            let found = thread_found(request, Some(binding));
            let read = control_next(
                ControlRun { thread_key, request, stage: found.0 },
                ControlEvent::Mode(before),
            );
            &&& found.1 == (ControlStep::ReadMode { workspace })
            &&& read.1 == (ControlStep::WriteMode { workspace, mode: execution_mode })
        }),
        ({
            let request = RuntimeControlActionRequest::SetThreadCollaborationMode { mode };
            let found = thread_found(request, Some(binding));
            let set = control_next(
                ControlRun { thread_key, request, stage: found.0 },
                ControlEvent::Done,
            );
            let logged = control_next(
                ControlRun { thread_key, request, stage: set.0 },
                ControlEvent::Done,
            );
            &&& found.1 == (ControlStep::SetCollaboration { mode })
            &&& set.1 == (ControlStep::Log { log: ControlLog::CollaborationModeChanged(mode) })
            &&& logged.1 == (ControlStep::Finish {
                outcome: Ok(ControlOutcome::CollaborationMode { mode }),
            })
        }),
{
}

/// A session can be gone on with where the binding names it by more than white space.
pub proof fn law_bound_sessions_are_named(binding: Option<BindingModel>)
    ensures
        bound_session(binding) is Some <==> binding is Some && binding->0.current_codex_thread_id
            is Some && !text::is_blank(binding->0.current_codex_thread_id->0),
        bound_session(binding) matches Some(id) ==> id == text::trimmed(
            binding->0.current_codex_thread_id->0,
        ),
{
}

/// The title of a thread is the name of the directory of its workspace.
pub proof fn law_threads_are_named_after_their_directory(base: Seq<char>, name: Seq<char>)
    requires
        !text::is_blank(name),
        !name.contains('/'),
        name != seq!['.'],
        name != seq!['.', '.'],
    ensures
        thread_title(paths::below(base, name)) == text::trimmed(name),
{
    assert(name.len() > 0) by {
        if name.len() == 0 {
            let bounds = text::law_trimming_cuts_white_space_off(name);
        }
    }
    paths::law_files_have_their_own_name(base, name);
}

/// A workspace that cannot be added is refused with a reason that names it, and names every thread
/// that stands in the way; threads that are active are named before those that are archived.
pub proof fn law_refusals_name_the_workspace(preflight: WorkspaceAddPreflight)
    ensures
        preflight.reason() matches Some(reason) ==> text::contains(
            reason,
            preflight.probe.canonical_workspace_cwd@,
        ),
        preflight.active_threads@.len() > 0 ==> text::occurs_at(
            preflight.reason()->0,
            "blocked_by_active_binding: "@,
            0,
        ),
        preflight.active_threads@.len() == 0 && preflight.archived_threads@.len() > 0
            ==> text::occurs_at(preflight.reason()->0, "blocked_by_archived_binding: "@, 0),
{
    reveal_strlit("blocked_by_active_binding: ");
    reveal_strlit("blocked_by_archived_binding: ");
    reveal_strlit("blocked_by_active_binding: workspace `");
    reveal_strlit("blocked_by_archived_binding: workspace `");
    if preflight.reason() is Some {
        let reason = preflight.reason()->0;
        let path = preflight.probe.canonical_workspace_cwd@;
        let head = if preflight.active_threads@.len() > 0 {
            "blocked_by_active_binding: workspace `"@
        } else {
            "blocked_by_archived_binding: workspace `"@
        };
        let at = head.len() as int;
        assert(reason.subrange(at, at + path.len()) =~= path);
        assert(text::occurs_at(reason, path, at));
        if preflight.active_threads@.len() > 0 {
            assert(reason.subrange(0, 27) =~= "blocked_by_active_binding: "@);
        } else {
            assert(reason.subrange(0, 29) =~= "blocked_by_archived_binding: "@);
        }
    }
}

/// A text on one line is made of the words of the text with single blanks between them; it is cut
/// behind 220 characters, and where there is no word there is none.
pub proof fn law_long_contents_are_cut(contents: Seq<char>)
    ensures
        ({
            let line = text::joined(text::words(contents), " "@);
            &&& compacted(contents) is None <==> line.len() == 0
            &&& 0 < line.len() <= 220 ==> compacted(contents) == Some(line)
            &&& line.len() > 220 ==> compacted(contents)->0.len() == 223 && line.take(
                220,
            ).is_prefix_of(compacted(contents)->0)
        }),
{
    reveal_strlit("...");
}

/// A probe says of every place whether something is there, and of every file where it is and what it
/// holds in short, where that could be read.
pub proof fn law_probes_say_what_is_there(probe: WorkspaceSurfaceProbe)
    ensures
        probe.lines()[1] == "workspace: "@ + probe.canonical_workspace_cwd@,
        probe.lines()[2] == ".threadbridge/: "@ + if probe.threadbridge_exists {
            "present"@
        } else {
            "missing"@
        },
        probe.lines()[3] == ".threadbridge/bin/: "@ + if probe.bin_exists {
            "present"@
        } else {
            "missing"@
        },
        probe.lines()[4] == ".threadbridge/state/: "@ + if probe.state_exists {
            "present"@
        } else {
            "missing"@
        },
        probe.lines()[5] == ".threadbridge/tool_requests/: "@ + if probe.tool_requests_exists {
            "present"@
        } else {
            "missing"@
        },
        probe.lines()[6] == ".threadbridge/tool_results/: "@ + if probe.tool_results_exists {
            "present"@
        } else {
            "missing"@
        },
        probe.lines()[8] == "workspace-config.json"@ + ": "@ + if probe.workspace_config.exists {
            "present"@
        } else {
            "missing"@
        },
        probe.lines()[9] == "path: "@ + probe.workspace_config.path@,
        probe.workspace_config.summary matches Some(summary) ==> probe.lines()[10] == "summary: "@
            + summary@,
{
}

/// What was found before a workspace is added names every thread that is bound to it, with its title
/// where it has one, and says whether something must be cleared away first.
pub proof fn law_preflights_name_the_bindings(preflight: WorkspaceAddPreflight, i: int)
    ensures
        preflight.active_threads@.len() == 0 ==> preflight.lines()[2] == "active_bindings: "@
            + "none"@,
        preflight.archived_threads@.len() == 0 ==> preflight.lines()[3] == "archived_bindings: "@
            + "none"@,
        preflight.probe.threadbridge_exists ==> preflight.lines()[4] == "reset_required: "@ + "yes"@,
        !preflight.probe.threadbridge_exists ==> preflight.lines()[4] == "reset_required: "@ + "no"@,
        preflight.reason() is None ==> preflight.lines()[5] == "reset_allowed: yes"@,
        0 <= i < preflight.active_threads@.len() ==> text::contains(
            preflight.lines()[2],
            preflight.active_threads@[i].thread_key@,
        ),
        0 <= i < preflight.archived_threads@.len() ==> text::contains(
            preflight.lines()[3],
            preflight.archived_threads@[i].thread_key@,
        ),
{
    if 0 <= i < preflight.active_threads@.len() {
        lemma_summaries_name("active_bindings: "@, preflight.active_threads@, i);
    }
    if 0 <= i < preflight.archived_threads@.len() {
        lemma_summaries_name("archived_bindings: "@, preflight.archived_threads@, i);
    }
}

/// Summaries name every thread.
proof fn lemma_summaries_name(
    heading: Seq<char>,
    bindings: Seq<WorkspaceBindingSummary>,
    i: int,
)
    requires
        0 <= i < bindings.len(),
    ensures
        text::contains(heading + binding_summaries_text(bindings), bindings[i].thread_key@),
{
    let parts = Seq::new(bindings.len(), |k: int| binding_summary_text(bindings[k]));
    let all = binding_summaries_text(bindings);
    let key = bindings[i].thread_key@;
    text::law_joined_holds_every_part(parts, ", "@, i);
    let at = text::part_start(parts, ", "@.len(), i) as int;
    let part = parts[i];
    assert(part.subrange(0, key.len() as int) =~= key);
    let line = heading + all;
    let start: int = heading.len() + at;
    assert(all.subrange(at, at + part.len()) == part);
    assert(line.subrange(start, start + key.len()) =~= all.subrange(at, at + part.len()).subrange(
        0,
        key.len() as int,
    ));
    assert(text::occurs_at(line, key, start));
}

/// What is reported of an action is what came of it: the session that was begun, whether a repair
/// was verified, the mode that was set and whether the session still runs in another, the session
/// that was launched, and the turn that was asked to end.
pub proof fn law_results_say_what_came_of_it(
    outcome: ControlOutcome,
    key: String,
    result: RuntimeControlActionResult,
)
    requires
        outcome.is_reported(key, result),
    ensures
        match result {
            RuntimeControlActionResult::StartFreshSession { thread_key, current_codex_thread_id } => {
                thread_key == key && (outcome matches ControlOutcome::Started { binding } && (
                binding matches Some(binding) ==> current_codex_thread_id
                    == binding.current_codex_thread_id) && (binding is None
                    ==> current_codex_thread_id is None))
            },
            RuntimeControlActionResult::RepairSessionBinding {
                thread_key,
                verified,
                session_broken_reason,
            } => thread_key == key && (outcome matches ControlOutcome::Repaired {
                verified: found,
                binding,
            } && found == verified && (binding matches Some(binding) ==> session_broken_reason
                == binding.session_broken_reason)),
            RuntimeControlActionResult::SetWorkspaceExecutionMode {
                thread_key,
                workspace_cwd,
                workspace_execution_mode,
                current_execution_mode,
                mode_drift,
                ..
            } => thread_key == key && (outcome matches ControlOutcome::ExecutionMode {
                workspace,
                binding,
                mode,
            } && workspace_cwd == workspace && workspace_execution_mode == mode
                && current_execution_mode == binding.current_execution_mode && (!mode_drift
                <==> current_execution_mode == Some(workspace_execution_mode))),
            RuntimeControlActionResult::LaunchLocalSession { thread_key, target, launched, .. } => {
                thread_key == key && launched && (outcome matches ControlOutcome::Launched {
                    target: asked,
                    ..
                } && asked == target)
            },
            RuntimeControlActionResult::SetThreadCollaborationMode { thread_key, mode } => thread_key
                == key && outcome == (ControlOutcome::CollaborationMode { mode }),
            RuntimeControlActionResult::InterruptRunningTurn {
                thread_key,
                session_id,
                turn_id,
                state,
            } => thread_key == key && outcome == (ControlOutcome::Interrupted {
                session_id,
                turn_id,
                state,
            }),
        },
{
}

/// What belongs to a workspace stands below it, and the state of its runtime below that.
pub proof fn law_state_is_kept_below_the_workspace(workspace: Seq<char>)
    requires
        workspace.len() > 0,
        workspace.last() != '/',
    ensures
        runtime_dir(workspace) == workspace + "/.threadbridge"@,
        state_dir(workspace) == workspace + "/.threadbridge/state"@,
{
    reveal_strlit(".threadbridge");
    reveal_strlit("/.threadbridge");
    reveal_strlit("state");
    reveal_strlit("/.threadbridge/state");
    assert(!paths::is_absolute(".threadbridge"@));
    assert(!paths::is_absolute("state"@));
    assert(workspace.push('/') + ".threadbridge"@ =~= workspace + "/.threadbridge"@);
    assert((workspace + "/.threadbridge"@).last() == 'e');
    assert((workspace + "/.threadbridge"@).push('/') + "state"@ =~= workspace
        + "/.threadbridge/state"@);
}

/// Why an action was refused says what is missing: the thread, its binding, its workspace, its
/// session, a turn, or the launcher.
pub proof fn law_refusals_say_what_is_missing(session_id: String, reason: String)
    ensures
        ControlError::NotActive.message() == "thread_key is not an active thread"@,
        ControlError::NotManaged.message() == "thread_key is not an active managed workspace"@,
        ControlError::MissingBinding.message() == "managed workspace is missing session binding"@,
        ControlError::Unbound.message() == "This thread is not bound to a workspace yet."@,
        ControlError::MissingWorkspace.message() == "session binding is missing workspace_cwd"@,
        ControlError::MissingManagedWorkspace.message()
            == "managed workspace is missing workspace_cwd"@,
        "This workspace is missing a usable Codex session id."@.is_prefix_of(
            ControlError::MissingSession.message(),
        ),
        ControlError::NoTurn.message() == "No active turn is running for this workspace."@,
        text::occurs_at(ControlError::UnknownTurn(session_id).message(), session_id@, 31),
        ControlError::LauncherUnavailable.message()
            == "Managed hcodex is unavailable for this workspace."@,
        ControlError::MissingCurrentSession.message()
            == "managed workspace is missing a current Telegram session"@,
        ControlError::MissingResumeSession.message()
            == "launch_local_session resume target requires session_id"@,
        ControlError::Outside(reason).message() == reason@,
{
    reveal_strlit("This workspace is missing a usable Codex session id.");
    reveal_strlit("This workspace is missing a usable Codex session id. Use New Session first.");
    reveal_strlit("A turn is running for session `");
    let unknown = ControlError::UnknownTurn(session_id).message();
    let at: int = "A turn is running for session `"@.len() as int;
    assert(unknown.subrange(at, at + session_id@.len()) =~= session_id@);
}

/// What is put on record about an action names the action, what it was done to, and who asked for it.
pub proof fn law_records_of_actions_say_what_was_done(
    origin: Seq<char>,
    mode: ExecutionMode,
    target: LaunchLocalSessionTarget,
    chosen: CollaborationMode,
    session_id: String,
    turn_id: String,
)
    ensures
        ControlLog::StartedFresh.line(origin) == "Action `"@ + "start_fresh_session"@
            + "` started a fresh Codex session from "@ + origin + "."@,
        ControlLog::Revalidated.line(origin) == "Codex session revalidated from "@ + origin + "."@,
        ControlLog::RevalidationFailed.line(origin) == "Codex session revalidation failed from "@
            + origin + "."@,
        ControlLog::ExecutionModeChanged(mode).line(origin) == "Action `"@
            + "set_workspace_execution_mode"@ + "` changed workspace execution mode to `"@
            + mode.name() + "` from "@ + origin + "."@,
        ControlLog::Launched(target).line(origin) == "Action `"@ + "launch_local_session"@
            + "` launched local hcodex via `"@ + target.name() + "` from "@ + origin + "."@,
        ControlLog::CollaborationModeChanged(chosen).line(origin) == "Action `"@
            + "set_thread_collaboration_mode"@ + "` changed collaboration mode to `"@
            + chosen.name() + "` from "@ + origin + "."@,
        (ControlLog::InterruptRequested { session_id, turn_id }).line(origin) == "Action `"@
            + "interrupt_running_turn"@ + "` requested interrupt for session `"@ + session_id@
            + "` turn `"@ + turn_id@ + "` from "@ + origin + "."@,
{
}

/// What is put on record about a thread says what became of it and who asked for that.
pub proof fn law_records_of_threads_say_what_became_of_them(
    origin: Seq<char>,
    workspace: String,
    title: String,
    message_thread_id: i32,
)
    ensures
        (ThreadLog::Bound { workspace }).line(origin) == "Bound Telegram thread to workspace "@
            + workspace@ + " from "@ + origin + "."@,
        ThreadLog::AdoptedTui.line(origin) == "Adopted the active TUI session from "@ + origin
            + "."@,
        ThreadLog::RejectedTui.line(origin) == "Rejected the active TUI session from "@ + origin
            + "."@,
        ThreadLog::Archived.line(origin) == "Thread archived from "@ + origin + "."@,
        ("Thread restored from "@ + origin).is_prefix_of(
            (ThreadLog::Restored { title, message_thread_id }).line(origin),
        ),
        text::contains((ThreadLog::Restored { title, message_thread_id }).line(origin), title@),
{
    let restored = (ThreadLog::Restored { title, message_thread_id }).line(origin);
    let head = "Thread restored from "@ + origin;
    assert(head =~= restored.subrange(0, head.len() as int));
    let at: int = head.len() + " into Telegram thread \""@.len() as int;
    assert(restored.subrange(at, at + title@.len()) =~= title@);
    assert(text::occurs_at(restored, title@, at));
}

/// A workspace that is bound already is refused for the threads that are active before those that are
/// archived, and by the name of the workspace.
pub proof fn law_bound_workspaces_are_refused_by_their_threads(preflight: WorkspaceAddPreflight)
    ensures
        preflight.active_threads@.len() > 0 ==> (preflight.reason() matches Some(reason) && (
        "blocked_by_active_binding: workspace `"@
            + preflight.probe.canonical_workspace_cwd@).is_prefix_of(reason)),
        preflight.active_threads@.len() == 0 && preflight.archived_threads@.len() > 0 ==> (
        preflight.reason() matches Some(reason) && ("blocked_by_archived_binding: workspace `"@
            + preflight.probe.canonical_workspace_cwd@).is_prefix_of(reason)),
{
    if preflight.active_threads@.len() > 0 {
        let head = "blocked_by_active_binding: workspace `"@
            + preflight.probe.canonical_workspace_cwd@;
        assert(head =~= preflight.reason()->0.subrange(0, head.len() as int));
    } else if preflight.archived_threads@.len() > 0 {
        let head = "blocked_by_archived_binding: workspace `"@
            + preflight.probe.canonical_workspace_cwd@;
        assert(head =~= preflight.reason()->0.subrange(0, head.len() as int));
    }
}

/// An action is put on record once it is done and then reported as what it was: a fresh session, a
/// launch, a mode of collaboration, an interrupt.
pub proof fn law_actions_are_recorded_and_reported(
    run: ControlRun,
    target: LaunchLocalSessionTarget,
    plan: LaunchPlan,
    mode: CollaborationMode,
    binding: Option<SessionBinding>,
    workspace: String,
    session_id: String,
    turn_id: String,
)
    ensures
        ({
            let done = ControlEvent::Done;
            let step = |stage: ControlStage, event: ControlEvent|
                control_next(ControlRun { stage, ..run }, event);
            let started = step(ControlStage::StartSession, done);
            let launched = step(ControlStage::Launch { target, plan }, done);
            let found = step(launched.0, ControlEvent::ThreadFound(binding));
            let set = step(ControlStage::SetCollaboration { mode }, done);
            let interrupted = step(
                ControlStage::Interrupt { workspace, session_id, turn_id },
                done,
            );
            let recorded = step(interrupted.0, done);
            &&& started.1 == (ControlStep::Log { log: ControlLog::StartedFresh })
            &&& step(started.0, done).1 is ReadBinding
            &&& step(
                step(started.0, done).0,
                ControlEvent::Binding(binding),
            ).1 == (ControlStep::Finish { outcome: Ok(ControlOutcome::Started { binding }) })
            &&& launched.1 is FindThread
            &&& found.1 == (ControlStep::Log { log: ControlLog::Launched(target) })
            &&& step(found.0, done).1 == (ControlStep::Finish {
                outcome: Ok(ControlOutcome::Launched { target, plan }),
            })
            &&& step(launched.0, ControlEvent::ThreadMissing).1 == (ControlStep::Finish {
                outcome: Err(ControlError::NotActive),
            })
            &&& set.1 == (ControlStep::Log { log: ControlLog::CollaborationModeChanged(mode) })
            &&& step(set.0, done).1 == (ControlStep::Finish {
                outcome: Ok(ControlOutcome::CollaborationMode { mode }),
            })
            &&& interrupted.1 == (ControlStep::RecordInterrupt { workspace, session_id, turn_id })
            &&& recorded.1 == (ControlStep::Log {
                log: ControlLog::InterruptRequested { session_id, turn_id },
            })
            &&& step(recorded.0, done).1 == (ControlStep::Finish {
                outcome: Ok(
                    ControlOutcome::Interrupted {
                        session_id,
                        turn_id: Some(turn_id),
                        state: InterruptRunningTurnState::Requested,
                    },
                ),
            })
        }),
{
}

/// The mode of a workspace is written as it was asked for, and what is reported is what is read back
/// of it, for the binding that the thread has then.
pub proof fn law_written_modes_are_read_back(
    run: ControlRun,
    mode: ExecutionMode,
    before: ExecutionMode,
    read: ExecutionMode,
    workspace: String,
    binding: SessionBinding,
)
    requires
        binding.workspace_cwd is Some,
    ensures
        ({
            let step = |stage: ControlStage, event: ControlEvent|
                control_next(ControlRun { stage, ..run }, event);
            let write = step(
                ControlStage::ReadMode { mode, workspace },
                ControlEvent::Mode(before),
            );
            let written = step(write.0, ControlEvent::Done);
            let found = step(written.0, ControlEvent::ThreadFound(Some(binding)));
            let again = step(found.0, ControlEvent::Mode(read));
            let logged = step(again.0, ControlEvent::ThreadFound(None));
            &&& write.1 == (ControlStep::WriteMode { workspace, mode })
            &&& written.1 is FindThread
            &&& found.1 == (ControlStep::ReadMode { workspace: binding.workspace_cwd->0 })
            &&& again.1 is FindThread
            &&& logged.1 == (ControlStep::Log { log: ControlLog::ExecutionModeChanged(mode) })
            &&& step(logged.0, ControlEvent::Done).1 == (ControlStep::Finish {
                outcome: Ok(
                    ControlOutcome::ExecutionMode {
                        workspace: binding.workspace_cwd->0,
                        binding,
                        mode: read,
                    },
                ),
            })
            &&& step(again.0, ControlEvent::ThreadMissing).1 == (ControlStep::Finish {
                outcome: Err(ControlError::NotActive),
            })
            &&& step(written.0, ControlEvent::ThreadFound(None)).1 == (ControlStep::Finish {
                outcome: Err(ControlError::MissingBinding),
            })
            &&& step(written.0, ControlEvent::ThreadMissing).1 == (ControlStep::Finish {
                outcome: Err(ControlError::NotManaged),
            })
        }),
{
}

/// Nothing is taken that was not asked for: an action that has ended stays so, an event of another step
/// ends it, and a step that fails ends it for the reason of the failure.
pub proof fn law_actions_take_only_what_was_asked_for(
    run: ControlRun,
    event: ControlEvent,
    reason: String,
)
    ensures
        run.stage is Finished ==> control_next(run, event).1 == (ControlStep::Finish {
            outcome: Err(ControlError::OutOfTurn),
        }),
        run.stage is StartSession && event !is Done && event !is Failed ==> control_next(
            run,
            event,
        ).1 == (ControlStep::Finish { outcome: Err(ControlError::OutOfTurn) }),
        run.stage !is Finished ==> control_next(run, ControlEvent::Failed(reason)).1 == (
        ControlStep::Finish { outcome: Err(ControlError::Outside(reason)) }),
{
}

} // verus!
