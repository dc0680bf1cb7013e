//! The state of a thread along its three axes: lifecycle, binding and run.
use vstd::prelude::*;
use vstd::string::*;

use crate::repository;
use crate::repository::{BindingModel, SessionBinding, ThreadMetadata, ThreadStatus};
use crate::text;
use crate::workspace_status::{SessionActivitySource, SessionCurrentStatus, WorkspaceStatusPhase};

verus! {

broadcast use vstd::string::group_string_axioms;

/// Whether a thread is in use.
#[derive(Debug, Clone, Copy, PartialEq, Eq, Structural)]
pub enum LifecycleStatus {
    Active,
    Archived,
}

impl LifecycleStatus {
    /// The name of the status.
    pub open spec fn name(self) -> Seq<char> {
        match self {
            LifecycleStatus::Active => "active"@,
            LifecycleStatus::Archived => "archived"@,
        }
    }

    /// The name of the status.
    pub fn as_str(self) -> (res: &'static str)
        ensures
            res@ == self.name(),
    {
        match self {
            LifecycleStatus::Active => "active",
            LifecycleStatus::Archived => "archived",
        }
    }
}

/// The lifecycle status that a stored status stands for.
pub open spec fn lifecycle_of(status: ThreadStatus) -> LifecycleStatus {
    match status {
        ThreadStatus::Active => LifecycleStatus::Active,
        ThreadStatus::Archived => LifecycleStatus::Archived,
    }
}

impl From<ThreadStatus> for LifecycleStatus {
    fn from(value: ThreadStatus) -> (res: Self) {
        match value {
            ThreadStatus::Active => LifecycleStatus::Active,
            ThreadStatus::Archived => LifecycleStatus::Archived,
        }
    }
}

impl vstd::std_specs::convert::FromSpecImpl<ThreadStatus> for LifecycleStatus {
    open spec fn obeys_from_spec() -> bool {
        true
    }

    open spec fn from_spec(value: ThreadStatus) -> LifecycleStatus {
        lifecycle_of(value)
    }
}

/// Whether a thread is bound to a workspace, and whether the session there works.
#[derive(Debug, Clone, Copy, PartialEq, Eq, Structural)]
pub enum BindingStatus {
    Unbound,
    Healthy,
    Broken,
}

impl BindingStatus {
    /// The name of the status.
    pub open spec fn name(self) -> Seq<char> {
        match self {
            BindingStatus::Unbound => "unbound"@,
            BindingStatus::Healthy => "healthy"@,
            BindingStatus::Broken => "broken"@,
        }
    }

    /// The name of the status.
    pub fn as_str(self) -> (res: &'static str)
        ensures
            res@ == self.name(),
    {
        match self {
            BindingStatus::Unbound => "unbound",
            BindingStatus::Healthy => "healthy",
            BindingStatus::Broken => "broken",
        }
    }
}

/// Whether a turn is running.
#[derive(Debug, Clone, Copy, PartialEq, Eq, Structural)]
pub enum RunStatus {
    Idle,
    Running,
}

impl RunStatus {
    /// The name of the status.
    pub open spec fn name(self) -> Seq<char> {
        match self {
            RunStatus::Idle => "idle"@,
            RunStatus::Running => "running"@,
        }
    }

    /// The name of the status.
    pub fn as_str(self) -> (res: &'static str)
        ensures
            res@ == self.name(),
    {
        match self {
            RunStatus::Idle => "idle",
            RunStatus::Running => "running",
        }
    }
}

/// The state of a thread.
#[derive(Debug, Clone, Copy, PartialEq, Eq, Structural)]
pub struct ResolvedThreadState {
    pub lifecycle_status: LifecycleStatus,
    pub binding_status: BindingStatus,
    pub run_status: RunStatus,
    pub run_phase: WorkspaceStatusPhase,
}

impl ResolvedThreadState {
    /// Whether the thread is archived.
    pub fn is_archived(self) -> (res: bool)
        ensures
            res == (self.lifecycle_status == LifecycleStatus::Archived),
    {
        self.lifecycle_status == LifecycleStatus::Archived
    }

    /// Whether the thread has no workspace.
    pub fn is_unbound(self) -> (res: bool)
        ensures
            res == (self.binding_status == BindingStatus::Unbound),
    {
        self.binding_status == BindingStatus::Unbound
    }

    /// Whether the session of the thread is broken.
    pub fn is_broken(self) -> (res: bool)
        ensures
            res == (self.binding_status == BindingStatus::Broken),
    {
        self.binding_status == BindingStatus::Broken
    }

    /// Whether a turn is running.
    pub fn is_running(self) -> (res: bool)
        ensures
            res == (self.run_status == RunStatus::Running),
    {
        self.run_status == RunStatus::Running
    }
}

/// The workspace that a binding names.
pub open spec fn workspace_of(binding: Option<BindingModel>) -> Option<Seq<char>> {
    match binding {
        Some(binding) => text::filled(binding.workspace_cwd),
        None => None,
    }
}

/// The binding status of a thread.
pub open spec fn binding_status_of(binding: Option<BindingModel>) -> BindingStatus {
    if workspace_of(binding) is None {
        BindingStatus::Unbound
    } else if binding->0.session_broken {
        BindingStatus::Broken
    } else {
        BindingStatus::Healthy
    }
}

/// The sessions of a binding that may be busy: the current one first, then that of the
/// terminal interface where it is another one.
pub open spec fn candidates_of(binding: BindingModel) -> Seq<Seq<char>> {
    match (
        text::filled(binding.current_codex_thread_id),
        text::filled(binding.tui_active_codex_thread_id),
    ) {
        (Some(current), Some(tui)) => if current == tui {
            seq![current]
        } else {
            seq![current, tui]
        },
        (Some(current), None) => seq![current],
        (None, Some(tui)) => seq![tui],
        (None, None) => Seq::empty(),
    }
}

/// Whether a phase means that a turn is running.
pub open spec fn run_status_of(phase: WorkspaceStatusPhase) -> RunStatus {
    if phase.is_busy() {
        RunStatus::Running
    } else {
        RunStatus::Idle
    }
}

/// The workspace that a binding names.
pub fn binding_workspace_path(binding: Option<&SessionBinding>) -> (res: Option<&str>)
    ensures
        text::opt_str_view(res) == workspace_of(repository::opt_binding_ref(binding)),
{
    match binding {
        Some(binding) => text::trim_filled(text::as_deref(&binding.workspace_cwd)),
        None => None,
    }
}

/// The session that a binding uses.
pub fn current_session_id(binding: &SessionBinding) -> (res: Option<&str>)
    ensures
        text::opt_str_view(res) == text::filled(binding@.current_codex_thread_id),
{
    text::trim_filled(text::as_deref(&binding.current_codex_thread_id))
}

/// The session of the terminal interface that a binding knows of.
pub fn tui_session_id(binding: &SessionBinding) -> (res: Option<&str>)
    ensures
        text::opt_str_view(res) == text::filled(binding@.tui_active_codex_thread_id),
{
    text::trim_filled(text::as_deref(&binding.tui_active_codex_thread_id))
}

/// The lifecycle status of a thread.
pub fn resolve_lifecycle_status(metadata: &ThreadMetadata) -> (res: LifecycleStatus)
    ensures
        res == lifecycle_of(metadata@.status),
{
    LifecycleStatus::from(metadata.status)
}

/// The binding status of a thread; its metadata have no say in it.
pub fn resolve_binding_status(metadata: &ThreadMetadata, binding: Option<&SessionBinding>) -> (res:
    BindingStatus)
    ensures
        res == binding_status_of(repository::opt_binding_ref(binding)),
{
    let _ = metadata;
    match binding {
        Some(inner) => {
            if binding_workspace_path(binding).is_none() {
                BindingStatus::Unbound
            } else if inner.session_broken {
                BindingStatus::Broken
            } else {
                BindingStatus::Healthy
            }
        },
        None => BindingStatus::Unbound,
    }
}

/// The sessions of a binding that may be busy, where there is any.
pub fn candidate_session_ids(binding: &SessionBinding) -> (res: Option<Vec<String>>)
    ensures
        match res {
            Some(ids) => text::views(ids@) == candidates_of(binding@) && ids@.len() > 0,
            None => candidates_of(binding@).len() == 0,
        },
{
    let mut ids: Vec<String> = Vec::new();
    let current = current_session_id(binding);
    let tui = tui_session_id(binding);
    match current {
        Some(id) => ids.push(id.to_owned()),
        None => {},
    }
    match tui {
        Some(id) => {
            let known = match current {
                Some(first) => text::same_text(first, id),
                None => false,
            };
            if !known {
                ids.push(id.to_owned());
            }
        },
        None => {},
    }
    proof {
        assert(text::views(ids@) =~= candidates_of(binding@));
    }
    if ids.len() == 0 {
        None
    } else {
        Some(ids)
    }
}

/// The state of a thread whose run phase is known.
pub open spec fn state_of(
    status: ThreadStatus,
    binding: Option<BindingModel>,
    phase: WorkspaceStatusPhase,
) -> ResolvedThreadState {
    ResolvedThreadState {
        lifecycle_status: lifecycle_of(status),
        binding_status: binding_status_of(binding),
        run_status: run_status_of(phase),
        run_phase: phase,
    }
}

/// The phase that a snapshot of a busy session reports; without one the thread is idle.
pub open spec fn phase_of(snapshot: Option<SessionCurrentStatus>) -> WorkspaceStatusPhase {
    match snapshot {
        Some(snapshot) => snapshot.phase,
        None => WorkspaceStatusPhase::Idle,
    }
}

/// The phase of a thread, from the snapshot of its busy session.
pub fn resolve_run_phase(snapshot: &Option<SessionCurrentStatus>) -> (res: WorkspaceStatusPhase)
    ensures
        res == phase_of(*snapshot),
{
    match snapshot {
        Some(snapshot) => snapshot.phase,
        None => WorkspaceStatusPhase::Idle,
    }
}

/// The run status of a thread, from the snapshot of its busy session.
pub fn resolve_run_status(snapshot: &Option<SessionCurrentStatus>) -> (res: RunStatus)
    ensures
        res == run_status_of(phase_of(*snapshot)),
{
    if resolve_run_phase(snapshot).is_turn_busy() {
        RunStatus::Running
    } else {
        RunStatus::Idle
    }
}

/// The state of a thread, from the snapshot of its busy session.
pub fn resolve_thread_state(
    metadata: &ThreadMetadata,
    binding: Option<&SessionBinding>,
    snapshot: &Option<SessionCurrentStatus>,
) -> (res: ResolvedThreadState)
    ensures
        res == state_of(
            metadata@.status,
            repository::opt_binding_ref(binding),
            phase_of(*snapshot),
        ),
{
    ResolvedThreadState {
        lifecycle_status: resolve_lifecycle_status(metadata),
        binding_status: resolve_binding_status(metadata, binding),
        run_status: resolve_run_status(snapshot),
        run_phase: resolve_run_phase(snapshot),
    }
}

/// What a worker reports of a session.
#[derive(Debug, Clone, PartialEq, Eq)]
pub struct BackendThreadRunState {
    pub is_busy: bool,
    pub active_turn_id: Option<String>,
    pub interruptible: bool,
    pub phase: Option<String>,
    pub last_transition_at: Option<String>,
}

/// The phase that the name of a worker's phase stands for.
pub open spec fn worker_phase(phase: Option<Seq<char>>) -> WorkspaceStatusPhase {
    if phase == Some("turn_interrupt_requested"@) {
        WorkspaceStatusPhase::TurnFinalizing
    } else if phase == Some("interrupted"@) || phase == Some("failed"@) || phase == Some("idle"@) {
        WorkspaceStatusPhase::Idle
    } else {
        WorkspaceStatusPhase::TurnRunning
    }
}

/// Whether a snapshot is what a worker's report of a busy session says.
pub open spec fn is_worker_snapshot(
    snapshot: SessionCurrentStatus,
    workspace: Seq<char>,
    session_id: Seq<char>,
    state: BackendThreadRunState,
    now: Seq<char>,
) -> bool {
    &&& snapshot.schema_version == 2
    &&& snapshot.workspace_cwd@ == workspace
    &&& snapshot.session_id@ == session_id
    &&& snapshot.activity_source == SessionActivitySource::ManagedRuntime
    &&& snapshot.live
    &&& snapshot.phase == worker_phase(text::opt_view(state.phase))
    &&& snapshot.shell_pid is None
    &&& snapshot.child_pid is None
    &&& snapshot.child_pgid is None
    &&& text::opt_view(snapshot.child_command) == Some("app_server_ws_worker"@)
    &&& text::opt_view(snapshot.client) == Some("threadbridge-app-server-worker"@)
    &&& text::opt_view(snapshot.turn_id) == text::opt_view(state.active_turn_id)
    &&& snapshot.summary is None
    &&& snapshot.pending_interrupt_turn_id is None
    &&& snapshot.pending_interrupt_requested_at is None
    &&& snapshot.observer_attach_mode is None
    &&& snapshot.updated_at@ == text::or_text(text::opt_view(state.last_transition_at), now)
}

/// Whether two texts are equal, one of which may be absent.
fn is_text(text: &Option<String>, expected: &str) -> (res: bool)
    ensures
        res == (text::opt_view(*text) == Some(expected@)),
{
    match text {
        Some(s) => text::same_text(s.as_str(), expected),
        None => false,
    }
}

/// The snapshot of a session, where the worker reports it busy.
pub fn worker_snapshot(
    workspace: &str,
    session_id: &str,
    state: BackendThreadRunState,
    now: &str,
) -> (res: Option<SessionCurrentStatus>)
    ensures
        match res {
            Some(snapshot) => state.is_busy && is_worker_snapshot(
                snapshot,
                workspace@,
                session_id@,
                state,
                now@,
            ),
            None => !state.is_busy,
        },
{
    if !state.is_busy {
        return None;
    }
    let phase = if is_text(&state.phase, "turn_interrupt_requested") {
        WorkspaceStatusPhase::TurnFinalizing
    } else if is_text(&state.phase, "interrupted") || is_text(&state.phase, "failed") || is_text(
        &state.phase,
        "idle",
    ) {
        WorkspaceStatusPhase::Idle
    } else {
        WorkspaceStatusPhase::TurnRunning
    };
    let updated_at = match state.last_transition_at {
        Some(at) => at,
        None => now.to_owned(),
    };
    Some(
        SessionCurrentStatus {
            schema_version: 2,
            workspace_cwd: workspace.to_owned(),
            session_id: session_id.to_owned(),
            activity_source: SessionActivitySource::ManagedRuntime,
            live: true,
            phase,
            shell_pid: None,
            child_pid: None,
            child_pgid: None,
            child_command: Some("app_server_ws_worker".to_owned()),
            client: Some("threadbridge-app-server-worker".to_owned()),
            turn_id: state.active_turn_id,
            summary: None,
            pending_interrupt_turn_id: None,
            pending_interrupt_requested_at: None,
            observer_attach_mode: None,
            updated_at,
        },
    )
}

/// Why the sessions of a binding cannot be asked for.
#[derive(Debug, Clone, PartialEq, Eq)]
pub enum BusyQueryError {
    RuntimeStateMissing { workspace: String },
    WorkerMissing { workspace: String },
    RunStateUnreadable { workspace: String, session_id: String },
}

impl BusyQueryError {
    /// The error in words.
    pub open spec fn message(self) -> Seq<char> {
        match self {
            BusyQueryError::RuntimeStateMissing { workspace } => {
                "workspace runtime state is unavailable for "@ + workspace@
            },
            BusyQueryError::WorkerMissing { workspace } => {
                "workspace worker endpoint is unavailable for "@ + workspace@
            },
            BusyQueryError::RunStateUnreadable { workspace, session_id } => {
                "failed to read worker run state for session `"@ + session_id@ + "` in "@
                    + workspace@
            },
        }
    }

    /// The error in words.
    pub fn to_text(&self) -> (res: String)
        ensures
            res@ == self.message(),
    {
        match self {
            BusyQueryError::RuntimeStateMissing { workspace } => {
                let mut res = "workspace runtime state is unavailable for ".to_owned();
                res.push_str(workspace.as_str());
                res
            },
            BusyQueryError::WorkerMissing { workspace } => {
                let mut res = "workspace worker endpoint is unavailable for ".to_owned();
                res.push_str(workspace.as_str());
                res
            },
            BusyQueryError::RunStateUnreadable { workspace, session_id } => {
                let mut res = "failed to read worker run state for session `".to_owned();
                res.push_str(session_id.as_str());
                res.push_str("` in ");
                res.push_str(workspace.as_str());
                res
            },
        }
    }
}

/// Whether a stored status says that its session is busy: a turn is running, and a session of the
/// terminal interface is one that a live client claims.
pub open spec fn is_stored_busy(status: SessionCurrentStatus, live_claim: Option<Seq<char>>) -> bool {
    &&& status.phase.is_busy()
    &&& status.activity_source == SessionActivitySource::Tui ==> live_claim == Some(
        status.session_id@,
    )
}

/// Whether a stored status was left behind by a terminal interface that is gone.
pub open spec fn is_stale(status: SessionCurrentStatus, live_claim: Option<Seq<char>>) -> bool {
    &&& status.phase.is_busy()
    &&& status.activity_source == SessionActivitySource::Tui
    &&& live_claim != Some(status.session_id@)
}

/// What a stored status becomes: one that was left behind is set back to idle.
pub open spec fn recovered(
    status: SessionCurrentStatus,
    live_claim: Option<Seq<char>>,
) -> SessionCurrentStatus {
    if is_stale(status, live_claim) {
        SessionCurrentStatus {
            live: false,
            phase: WorkspaceStatusPhase::Idle,
            turn_id: None,
            ..status
        }
    } else {
        status
    }
}

/// Where the status of a session stands among the stored ones, from `from` on.
pub open spec fn stored_from(
    stored: Seq<SessionCurrentStatus>,
    session_id: Seq<char>,
    from: int,
) -> Option<int>
    decreases stored.len() - from,
{
    if from < 0 || from >= stored.len() {
        None
    } else if stored[from].session_id@ == session_id {
        Some(from)
    } else {
        stored_from(stored, session_id, from + 1)
    }
}

/// Whether the stored status of a session says that it is busy.
pub open spec fn is_busy_in(
    stored: Seq<SessionCurrentStatus>,
    live_claim: Option<Seq<char>>,
    session_id: Seq<char>,
) -> bool {
    match stored_from(stored, session_id, 0) {
        Some(at) => is_stored_busy(stored[at], live_claim),
        None => false,
    }
}

/// The stored status of the first busy session, from the session at `from` on.
pub open spec fn busy_stored_from(
    session_ids: Seq<Seq<char>>,
    stored: Seq<SessionCurrentStatus>,
    live_claim: Option<Seq<char>>,
    from: int,
) -> Option<SessionCurrentStatus>
    decreases session_ids.len() - from,
{
    if from < 0 || from >= session_ids.len() {
        None
    } else if is_busy_in(stored, live_claim, session_ids[from]) {
        Some(stored[stored_from(stored, session_ids[from], 0)->0])
    } else {
        busy_stored_from(session_ids, stored, live_claim, from + 1)
    }
}

/// Whether a session is the one that a live client claims.
fn is_claimed(session_id: &str, live_claim: Option<&str>) -> (res: bool)
    ensures
        res == (text::opt_str_view(live_claim) == Some(session_id@)),
{
    match live_claim {
        Some(claimed) => text::same_text(claimed, session_id),
        None => false,
    }
}

/// What a stored status becomes, to be stored again: one that was left behind by a terminal
/// interface that is gone is set back to idle.
pub fn recovered_status(status: SessionCurrentStatus, live_claim: Option<&str>) -> (res:
    SessionCurrentStatus)
    ensures
        res == recovered(status, text::opt_str_view(live_claim)),
{
    if status.phase.is_turn_busy() && status.activity_source == SessionActivitySource::Tui
        && !is_claimed(status.session_id.as_str(), live_claim) {
        SessionCurrentStatus {
            live: false,
            phase: WorkspaceStatusPhase::Idle,
            turn_id: None,
            ..status
        }
    } else {
        status
    }
}

/// Where the status of a session stands among the stored ones.
fn position_of(stored: &Vec<SessionCurrentStatus>, session_id: &str) -> (res: Option<usize>)
    ensures
        match res {
            Some(at) => stored_from(stored@, session_id@, 0) == Some(at as int) && at
                < stored@.len(),
            None => stored_from(stored@, session_id@, 0) is None,
        },
{
    let mut i: usize = 0;
    while i < stored.len()
        invariant
            i <= stored@.len(),
            stored_from(stored@, session_id@, 0) == stored_from(stored@, session_id@, i as int),
        decreases stored@.len() - i,
    {
        if text::same_text(stored[i].session_id.as_str(), session_id) {
            return Some(i);
        }
        i += 1;
    }
    None
}

/// The stored status of the first of the sessions that is busy.
pub fn stored_snapshot(
    session_ids: &Vec<String>,
    stored: Vec<SessionCurrentStatus>,
    live_claim: Option<&str>,
) -> (res: Option<SessionCurrentStatus>)
    ensures
        res == busy_stored_from(
            text::views(session_ids@),
            stored@,
            text::opt_str_view(live_claim),
            0,
        ),
{
    let ghost ids = text::views(session_ids@);
    let ghost claim = text::opt_str_view(live_claim);
    let mut i: usize = 0;
    while i < session_ids.len()
        invariant
            i <= session_ids@.len(),
            ids == text::views(session_ids@),
            claim == text::opt_str_view(live_claim),
            busy_stored_from(ids, stored@, claim, 0) == busy_stored_from(
                ids,
                stored@,
                claim,
                i as int,
            ),
        decreases session_ids@.len() - i,
    {
        match position_of(&stored, session_ids[i].as_str()) {
            Some(at) => {
                let busy = stored[at].phase.is_turn_busy() && (stored[at].activity_source
                    != SessionActivitySource::Tui || is_claimed(
                    stored[at].session_id.as_str(),
                    live_claim,
                ));
                if busy {
                    let mut stored = stored;
                    return Some(stored.remove(at));
                }
            },
            None => {},
        }
        i += 1;
    }
    None
}

/// Where it is seen what the sessions of a binding do.
pub enum BusySource {
    /// The worker of the workspace is to be asked.
    Worker { url: String },
    /// There is no worker; the stored status of the busy session, if one is busy.
    Stored { snapshot: Option<SessionCurrentStatus> },
}

/// The search for the first busy session of a binding.
pub struct BusySearch {
    workspace: String,
    session_ids: Vec<String>,
    position: usize,
}

/// A search, by what its texts say.
pub struct BusyModel {
    pub workspace: Seq<char>,
    pub session_ids: Seq<Seq<char>>,
    pub position: int,
}

/// How a search ends.
pub enum BusyEnd {
    Busy { position: int },
    Idle,
    Unreadable { position: int },
}

impl View for BusySearch {
    type V = BusyModel;

    closed spec fn view(&self) -> BusyModel {
        BusyModel {
            workspace: self.workspace@,
            session_ids: text::views(self.session_ids@),
            position: self.position as int,
        }
    }
}

impl BusyModel {
    /// Whether there is a session left to ask for.
    pub open spec fn goes_on(self) -> bool {
        0 <= self.position < self.session_ids.len()
    }

    /// The search behind a report: it goes on only where the session is not busy.
    pub open spec fn after(self, report: Option<BackendThreadRunState>) -> BusyModel {
        BusyModel {
            position: if !self.goes_on() {
                self.position
            } else if report is Some && !report->0.is_busy {
                self.position + 1
            } else {
                self.session_ids.len() as int
            },
            ..self
        }
    }

    /// How the search ends, given what is reported of each session.
    pub open spec fn end(self, reports: Seq<Option<BackendThreadRunState>>) -> BusyEnd
        decreases self.session_ids.len() - self.position,
    {
        if !self.goes_on() {
            BusyEnd::Idle
        } else {
            match reports[self.position] {
                None => BusyEnd::Unreadable { position: self.position },
                Some(state) => if state.is_busy {
                    BusyEnd::Busy { position: self.position }
                } else {
                    self.after(reports[self.position]).end(reports)
                },
            }
        }
    }
}

impl BusySearch {
    /// Begins the search, where the binding names a workspace and a session.
    pub fn begin(binding: Option<&SessionBinding>) -> (res: Option<Self>)
        ensures
            match res {
                Some(search) => {
                    &&& search@.position == 0
                    &&& binding matches Some(inner)
                    &&& workspace_of(Some(inner@)) == Some(search@.workspace)
                    &&& search@.session_ids == candidates_of(inner@)
                    &&& search@.session_ids.len() > 0
                },
                None => {
                    ||| workspace_of(repository::opt_binding_ref(binding)) is None
                    ||| candidates_of(binding->0@).len() == 0
                },
            },
    {
        let workspace = match binding_workspace_path(binding) {
            Some(path) => path.to_owned(),
            None => return None,
        };
        match binding {
            Some(inner) => match candidate_session_ids(inner) {
                Some(session_ids) => Some(BusySearch { workspace, session_ids, position: 0 }),
                None => None,
            },
            None => None,
        }
    }

    /// The workspace of the sessions.
    pub fn workspace(&self) -> (res: &str)
        ensures
            res@ == self@.workspace,
    {
        self.workspace.as_str()
    }

    /// The sessions that may be busy.
    pub fn session_ids(&self) -> (res: &Vec<String>)
        ensures
            text::views(res@) == self@.session_ids,
    {
        &self.session_ids
    }

    /// Where it is seen what the sessions do: at the worker, where the workspace has a runtime
    /// state, and else in what is stored of them. `stored` is absent where the workspace keeps no
    /// statuses.
    pub fn source(
        &self,
        runtime_state: Option<Option<String>>,
        stored: Option<Vec<SessionCurrentStatus>>,
        live_claim: Option<&str>,
    ) -> (res: Result<BusySource, BusyQueryError>)
        ensures
            match (runtime_state, stored) {
                (Some(Some(url)), _) => res == Ok::<BusySource, BusyQueryError>(
                    BusySource::Worker { url },
                ),
                (Some(None), _) => res matches Err(BusyQueryError::WorkerMissing { workspace })
                    && workspace@ == self@.workspace,
                (None, Some(stored)) => res == Ok::<BusySource, BusyQueryError>(
                    BusySource::Stored {
                        snapshot: busy_stored_from(
                            self@.session_ids,
                            stored@,
                            text::opt_str_view(live_claim),
                            0,
                        ),
                    },
                ),
                (None, None) => res matches Err(BusyQueryError::RuntimeStateMissing { workspace })
                    && workspace@ == self@.workspace,
            },
    {
        match (runtime_state, stored) {
            (Some(Some(url)), _) => Ok(BusySource::Worker { url }),
            (Some(None), _) => Err(
                BusyQueryError::WorkerMissing { workspace: self.workspace.clone() },
            ),
            (None, Some(stored)) => Ok(
                BusySource::Stored {
                    snapshot: stored_snapshot(&self.session_ids, stored, live_claim),
                },
            ),
            (None, None) => Err(
                BusyQueryError::RuntimeStateMissing { workspace: self.workspace.clone() },
            ),
        }
    }

    /// The session to ask the worker for next.
    pub fn next_session(&self) -> (res: Option<&str>)
        ensures
            match res {
                Some(id) => self@.goes_on() && id@ == self@.session_ids[self@.position],
                None => !self@.goes_on(),
            },
    {
        if self.position < self.session_ids.len() {
            Some(self.session_ids[self.position].as_str())
        } else {
            None
        }
    }

    /// Takes what the worker reports of the session that was asked for: its snapshot where
    /// it is busy. The search ends there, and where a report could not be read.
    pub fn record(&mut self, report: Option<BackendThreadRunState>, now: &str) -> (res: Result<
        Option<SessionCurrentStatus>,
        BusyQueryError,
    >)
        ensures
            final(self)@ == old(self)@.after(report),
            if !old(self)@.goes_on() {
                res matches Ok(None)
            } else {
                match report {
                    Some(state) => match res {
                        Ok(Some(snapshot)) => state.is_busy && is_worker_snapshot(
                            snapshot,
                            old(self)@.workspace,
                            old(self)@.session_ids[old(self)@.position],
                            state,
                            now@,
                        ),
                        Ok(None) => !state.is_busy,
                        Err(_) => false,
                    },
                    None => res matches Err(
                        BusyQueryError::RunStateUnreadable { workspace, session_id },
                    ) && workspace@ == old(self)@.workspace && session_id@
                        == old(self)@.session_ids[old(self)@.position],
                }
            },
    {
        if self.position >= self.session_ids.len() {
            return Ok(None);
        }
        let session_id = self.session_ids[self.position].clone();
        match report {
            Some(state) => {
                if state.is_busy {
                    self.position = self.session_ids.len();
                } else {
                    self.position += 1;
                }
                Ok(worker_snapshot(self.workspace.as_str(), session_id.as_str(), state, now))
            },
            None => {
                self.position = self.session_ids.len();
                Err(
                    BusyQueryError::RunStateUnreadable {
                        workspace: self.workspace.clone(),
                        session_id,
                    },
                )
            },
        }
    }
}

/// The first busy session decides a search: it ends at the first session that is busy, or whose
/// report could not be read, and finds nothing exactly where no session is busy.
pub proof fn law_first_busy_session_decides(
    search: BusyModel,
    reports: Seq<Option<BackendThreadRunState>>,
)
    requires
        0 <= search.position <= search.session_ids.len(),
        reports.len() == search.session_ids.len(),
    ensures
        match search.end(reports) {
            BusyEnd::Busy { position } => {
                &&& search.position <= position < reports.len()
                &&& reports[position] is Some && reports[position]->0.is_busy
                &&& forall|i: int|
                    search.position <= i < position ==> (#[trigger] reports[i]) is Some
                        && !reports[i]->0.is_busy
            },
            BusyEnd::Unreadable { position } => {
                &&& search.position <= position < reports.len()
                &&& reports[position] is None
                &&& forall|i: int|
                    search.position <= i < position ==> (#[trigger] reports[i]) is Some
                        && !reports[i]->0.is_busy
            },
            BusyEnd::Idle => forall|i: int|
                search.position <= i < reports.len() ==> (#[trigger] reports[i]) is Some
                    && !reports[i]->0.is_busy,
        },
    decreases search.session_ids.len() - search.position,
{
    if search.goes_on() && reports[search.position] is Some
        && !reports[search.position]->0.is_busy {
        law_first_busy_session_decides(search.after(reports[search.position]), reports);
    }
}

/// A search is over once a session was busy or could not be asked for.
pub proof fn law_search_ends_at_a_busy_session(
    search: BusyModel,
    report: Option<BackendThreadRunState>,
)
    ensures
        report is None || report->0.is_busy ==> !search.after(report).goes_on(),
        search.goes_on() ==> search.session_ids.len() - search.after(report).position
            < search.session_ids.len() - search.position,
{
}

/// Of what is stored the first busy session decides too: the result is the stored status of the
/// first of the sessions that is busy, and nothing exactly where none is.
pub proof fn law_first_stored_session_decides(
    session_ids: Seq<Seq<char>>,
    stored: Seq<SessionCurrentStatus>,
    live_claim: Option<Seq<char>>,
)
    ensures
        match busy_stored_from(session_ids, stored, live_claim, 0) {
            Some(snapshot) => exists|i: int|
                {
                    &&& 0 <= i < session_ids.len()
                    &&& #[trigger] is_busy_in(stored, live_claim, session_ids[i])
                    &&& snapshot.session_id@ == session_ids[i]
                    &&& is_stored_busy(snapshot, live_claim)
                    &&& stored.contains(snapshot)
                    &&& forall|j: int|
                        0 <= j < i ==> !(#[trigger] is_busy_in(stored, live_claim, session_ids[j]))
                },
            None => forall|j: int|
                0 <= j < session_ids.len() ==> !(#[trigger] is_busy_in(
                    stored,
                    live_claim,
                    session_ids[j],
                )),
        },
{
    lemma_busy_stored(session_ids, stored, live_claim, 0);
}

/// What the status found among the stored ones is.
proof fn lemma_stored(stored: Seq<SessionCurrentStatus>, session_id: Seq<char>, from: int)
    requires
        0 <= from,
    ensures
        stored_from(stored, session_id, from) matches Some(at) ==> from <= at < stored.len()
            && stored[at].session_id@ == session_id,
    decreases stored.len() - from,
{
    if from < stored.len() && stored[from].session_id@ != session_id {
        lemma_stored(stored, session_id, from + 1);
    }
}

/// What the busy session found from a position on is.
proof fn lemma_busy_stored(
    session_ids: Seq<Seq<char>>,
    stored: Seq<SessionCurrentStatus>,
    live_claim: Option<Seq<char>>,
    from: int,
)
    requires
        0 <= from,
    ensures
        match busy_stored_from(session_ids, stored, live_claim, from) {
            Some(snapshot) => exists|i: int|
                {
                    &&& from <= i < session_ids.len()
                    &&& #[trigger] is_busy_in(stored, live_claim, session_ids[i])
                    &&& snapshot.session_id@ == session_ids[i]
                    &&& is_stored_busy(snapshot, live_claim)
                    &&& stored.contains(snapshot)
                    &&& forall|j: int|
                        from <= j < i ==> !(#[trigger] is_busy_in(
                            stored,
                            live_claim,
                            session_ids[j],
                        ))
                },
            None => forall|j: int|
                from <= j < session_ids.len() ==> !(#[trigger] is_busy_in(
                    stored,
                    live_claim,
                    session_ids[j],
                )),
        },
    decreases session_ids.len() - from,
{
    if from < session_ids.len() {
        if is_busy_in(stored, live_claim, session_ids[from]) {
            lemma_stored(stored, session_ids[from], 0);
            assert(stored.contains(stored[stored_from(stored, session_ids[from], 0)->0]));
        } else {
            lemma_busy_stored(session_ids, stored, live_claim, from + 1);
        }
    }
}

/// A thread runs, without a worker to say so, exactly where a session of its binding is stored as
/// busy.
pub proof fn law_stored_busy_session_runs(
    status: ThreadStatus,
    binding: BindingModel,
    stored: Seq<SessionCurrentStatus>,
    live_claim: Option<Seq<char>>,
)
    ensures
        ({
            let sessions = candidates_of(binding);
            let snapshot = busy_stored_from(sessions, stored, live_claim, 0);
            state_of(status, Some(binding), phase_of(snapshot)).run_status == RunStatus::Running
                <==> exists|i: int|
                0 <= i < sessions.len() && #[trigger] is_busy_in(stored, live_claim, sessions[i])
        }),
{
    lemma_busy_stored(candidates_of(binding), stored, live_claim, 0);
}

/// A status that was left behind is not busy any more, and no other status changes.
pub proof fn law_recovered_sessions_are_idle(
    status: SessionCurrentStatus,
    live_claim: Option<Seq<char>>,
)
    ensures
        !is_stale(recovered(status, live_claim), live_claim),
        is_stored_busy(recovered(status, live_claim), live_claim) <==> is_stored_busy(
            status,
            live_claim,
        ),
        is_stored_busy(status, live_claim) ==> recovered(status, live_claim) == status,
{
}

/// A thread without a workspace is unbound whatever else its binding says, and only a
/// bound thread can be broken.
pub proof fn law_binding_status_axes(binding: BindingModel)
    ensures
        binding_status_of(None) == BindingStatus::Unbound,
        text::filled(binding.workspace_cwd) is None <==> binding_status_of(Some(binding))
            == BindingStatus::Unbound,
        binding_status_of(Some(binding)) == BindingStatus::Broken <==> binding.session_broken
            && text::filled(binding.workspace_cwd) is Some,
{
}

/// No session is asked for twice.
pub proof fn law_candidates_are_distinct(binding: BindingModel)
    ensures
        candidates_of(binding).no_duplicates(),
        candidates_of(binding).len() <= 2,
{
}

/// A thread runs exactly where its phase is a busy one.
pub proof fn law_run_status_follows_phase(
    status: ThreadStatus,
    binding: Option<BindingModel>,
    phase: WorkspaceStatusPhase,
)
    ensures
        state_of(status, binding, phase).run_status == RunStatus::Running <==> phase.is_busy(),
{
}

/// The three axes of the state of a thread: it is archived where its metadata say so; it is bound
/// where its binding names a workspace, and then broken where the binding is marked; it runs while
/// a turn runs or is being finished.
pub proof fn law_states_have_three_axes(
    status: ThreadStatus,
    binding: Option<BindingModel>,
    phase: WorkspaceStatusPhase,
)
    ensures
        ({
            let state = state_of(status, binding, phase);
            let has_workspace = binding is Some && binding->0.workspace_cwd is Some
                && !text::is_blank(binding->0.workspace_cwd->0);
            &&& state.lifecycle_status is Archived <==> status is Archived
            &&& state.binding_status is Unbound <==> !has_workspace
            &&& state.binding_status is Broken <==> has_workspace && binding->0.session_broken
            &&& state.binding_status is Healthy <==> has_workspace && !binding->0.session_broken
            &&& state.run_status is Running <==> phase is TurnRunning || phase is TurnFinalizing
            &&& state.run_phase == phase
        }),
{
}

/// The sessions of a binding that may be busy are those that it names, without white space around
/// them: its own first, and that of the terminal interface behind it, each once.
pub proof fn law_candidates_are_the_named_sessions(binding: BindingModel)
    ensures
        forall|id: Seq<char>| #[trigger]
            candidates_of(binding).contains(id) <==> (binding.current_codex_thread_id is Some
                && !text::is_blank(binding.current_codex_thread_id->0) && id == text::trimmed(
                binding.current_codex_thread_id->0,
            )) || (binding.tui_active_codex_thread_id is Some && !text::is_blank(
                binding.tui_active_codex_thread_id->0,
            ) && id == text::trimmed(binding.tui_active_codex_thread_id->0)),
        candidates_of(binding).no_duplicates(),
        binding.current_codex_thread_id is Some && !text::is_blank(
            binding.current_codex_thread_id->0,
        ) ==> candidates_of(binding).len() > 0 && candidates_of(binding)[0] == text::trimmed(
            binding.current_codex_thread_id->0,
        ),
{
    let ids = candidates_of(binding);
    assert forall|id: Seq<char>| #[trigger] ids.contains(id) <==> (text::filled(
        binding.current_codex_thread_id,
    ) == Some(id) || text::filled(binding.tui_active_codex_thread_id) == Some(id)) by {
        if ids.len() > 0 {
            assert(ids.contains(ids[0]));
        }
        if ids.len() > 1 {
            assert(ids.contains(ids[1]));
        }
    }
}

/// A worker that reports a session as busy is believed: unless it names a phase that says
/// otherwise, a turn runs. A turn that is asked to stop is being finished, and one that was
/// interrupted, has failed or is idle runs no more.
pub proof fn law_busy_workers_run_turns(phase: Option<Seq<char>>)
    ensures
        worker_phase(phase) is Idle <==> phase == Some("idle"@) || phase == Some("failed"@) || phase
            == Some("interrupted"@),
        worker_phase(phase) is TurnFinalizing <==> phase == Some("turn_interrupt_requested"@),
        phase is None ==> worker_phase(phase) is TurnRunning,
        worker_phase(phase) !is ShellActive,
{
    reveal_strlit("turn_interrupt_requested");
    reveal_strlit("interrupted");
    reveal_strlit("failed");
    reveal_strlit("idle");
    assert("turn_interrupt_requested"@.len() == 24 && "interrupted"@.len() == 11 && "failed"@.len()
        == 6 && "idle"@.len() == 4);
}

/// What is stored of a session of a managed runtime is believed; what is stored of one of the
/// terminal interface only as long as a live client claims it. Either is busy only while a turn runs.
pub proof fn law_stored_sessions_need_a_live_client(
    status: SessionCurrentStatus,
    live_claim: Option<Seq<char>>,
)
    ensures
        status.phase is Idle || status.phase is ShellActive ==> !is_stored_busy(status, live_claim),
        (status.phase is TurnRunning || status.phase is TurnFinalizing)
            && status.activity_source is ManagedRuntime ==> is_stored_busy(status, live_claim),
        (status.phase is TurnRunning || status.phase is TurnFinalizing) && status.activity_source
            is Tui ==> (is_stored_busy(status, live_claim) <==> live_claim == Some(
            status.session_id@,
        )),
        is_stale(status, live_claim) <==> status.phase.is_busy() && !is_stored_busy(
            status,
            live_claim,
        ),
{
}

/// Without a snapshot of a busy session a thread is idle; with one it is in the phase of the
/// snapshot.
pub proof fn law_threads_are_in_the_phase_of_their_session(snapshot: Option<SessionCurrentStatus>)
    ensures
        snapshot is None ==> phase_of(snapshot) is Idle,
        snapshot is Some ==> phase_of(snapshot) == snapshot->0.phase,
{
}

/// Whether a thread is archived is told by a name.
pub proof fn law_lifecycles_have_names_of_their_own(a: LifecycleStatus, b: LifecycleStatus)
    ensures
        a.name() == b.name() <==> a == b,
        a is Active ==> a.name() == "active"@,
        a is Archived ==> a.name() == "archived"@,
{
    reveal_strlit("active");
    reveal_strlit("archived");
    assert("active"@.len() == 6);
    assert("archived"@.len() == 8);
}

/// States of a binding are told apart by their names.
pub proof fn law_bindings_have_names_of_their_own(a: BindingStatus, b: BindingStatus)
    ensures
        a.name() == b.name() <==> a == b,
        a is Unbound ==> a.name() == "unbound"@,
        a is Healthy ==> a.name() == "healthy"@,
        a is Broken ==> a.name() == "broken"@,
{
    reveal_strlit("unbound");
    reveal_strlit("healthy");
    reveal_strlit("broken");
    assert("unbound"@.len() == 7);
    assert("healthy"@.len() == 7);
    assert("broken"@.len() == 6);
    assert("unbound"@[0] != "healthy"@[0]);
}

/// Whether a thread runs a turn is told by a name.
pub proof fn law_runs_have_names_of_their_own(a: RunStatus, b: RunStatus)
    ensures
        a.name() == b.name() <==> a == b,
        a is Idle ==> a.name() == "idle"@,
        a is Running ==> a.name() == "running"@,
{
    reveal_strlit("idle");
    reveal_strlit("running");
    assert("idle"@.len() == 4);
    assert("running"@.len() == 7);
}

/// Why it is not known whether a thread is busy names the workspace, and the session whose state could
/// not be read.
pub proof fn law_busy_errors_name_what_could_not_be_read(workspace: String, session_id: String)
    ensures
        (BusyQueryError::RuntimeStateMissing { workspace }).message()
            == "workspace runtime state is unavailable for "@ + workspace@,
        (BusyQueryError::WorkerMissing { workspace }).message()
            == "workspace worker endpoint is unavailable for "@ + workspace@,
        (BusyQueryError::RunStateUnreadable { workspace, session_id }).message()
            == "failed to read worker run state for session `"@ + session_id@ + "` in "@ + workspace@,
{
}

} // verus!
