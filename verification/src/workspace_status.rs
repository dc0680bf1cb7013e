//! What a workspace reports of its sessions.
use vstd::prelude::*;

use crate::text;

verus! {

/// What a session is doing.
#[derive(Clone, Copy, Debug, PartialEq, Eq, Structural)]
pub enum WorkspaceStatusPhase {
    Idle,
    ShellActive,
    TurnRunning,
    TurnFinalizing,
}

impl WorkspaceStatusPhase {
    /// Whether a turn is running or being finished.
    pub open spec fn is_busy(self) -> bool {
        self == WorkspaceStatusPhase::TurnRunning || self == WorkspaceStatusPhase::TurnFinalizing
    }

    /// The name of the phase.
    pub open spec fn name(self) -> Seq<char> {
        match self {
            WorkspaceStatusPhase::Idle => "idle"@,
            WorkspaceStatusPhase::ShellActive => "shell_active"@,
            WorkspaceStatusPhase::TurnRunning => "turn_running"@,
            WorkspaceStatusPhase::TurnFinalizing => "turn_finalizing"@,
        }
    }

    /// The identifier of the phase.
    pub open spec fn identifier(self) -> Seq<char> {
        match self {
            WorkspaceStatusPhase::Idle => "Idle"@,
            WorkspaceStatusPhase::ShellActive => "ShellActive"@,
            WorkspaceStatusPhase::TurnRunning => "TurnRunning"@,
            WorkspaceStatusPhase::TurnFinalizing => "TurnFinalizing"@,
        }
    }

    /// Whether a turn is running or being finished.
    pub fn is_turn_busy(self) -> (res: bool)
        ensures
            res == self.is_busy(),
    {
        self == WorkspaceStatusPhase::TurnRunning || self == WorkspaceStatusPhase::TurnFinalizing
    }

    /// The name of the phase.
    pub fn as_str(self) -> (res: &'static str)
        ensures
            res@ == self.name(),
    {
        match self {
            WorkspaceStatusPhase::Idle => "idle",
            WorkspaceStatusPhase::ShellActive => "shell_active",
            WorkspaceStatusPhase::TurnRunning => "turn_running",
            WorkspaceStatusPhase::TurnFinalizing => "turn_finalizing",
        }
    }

    /// The identifier of the phase.
    pub fn as_identifier(self) -> (res: &'static str)
        ensures
            res@ == self.identifier(),
    {
        match self {
            WorkspaceStatusPhase::Idle => "Idle",
            WorkspaceStatusPhase::ShellActive => "ShellActive",
            WorkspaceStatusPhase::TurnRunning => "TurnRunning",
            WorkspaceStatusPhase::TurnFinalizing => "TurnFinalizing",
        }
    }
}

/// Where the activity of a session comes from.
#[derive(Clone, Copy, Debug, PartialEq, Eq, Structural)]
pub enum SessionActivitySource {
    Tui,
    ManagedRuntime,
}

impl SessionActivitySource {
    /// The identifier of the source.
    pub open spec fn identifier(self) -> Seq<char> {
        match self {
            SessionActivitySource::Tui => "Tui"@,
            SessionActivitySource::ManagedRuntime => "ManagedRuntime"@,
        }
    }

    /// The identifier of the source.
    pub fn as_identifier(self) -> (res: &'static str)
        ensures
            res@ == self.identifier(),
    {
        match self {
            SessionActivitySource::Tui => "Tui",
            SessionActivitySource::ManagedRuntime => "ManagedRuntime",
        }
    }
}

/// What a session is doing, as last reported.
#[derive(Debug, Clone, PartialEq, Eq)]
pub struct SessionCurrentStatus {
    pub schema_version: u32,
    pub workspace_cwd: String,
    pub session_id: String,
    pub activity_source: SessionActivitySource,
    pub live: bool,
    pub phase: WorkspaceStatusPhase,
    pub shell_pid: Option<u32>,
    pub child_pid: Option<u32>,
    pub child_pgid: Option<u32>,
    pub child_command: Option<String>,
    pub client: Option<String>,
    pub turn_id: Option<String>,
    pub summary: Option<String>,
    pub pending_interrupt_turn_id: Option<String>,
    pub pending_interrupt_requested_at: Option<String>,
    pub observer_attach_mode: Option<String>,
    pub updated_at: String,
}

/// The claim of a terminal interface to a session of the workspace.
#[derive(Debug, Clone, PartialEq, Eq)]
pub struct LocalTuiSessionClaim {
    pub schema_version: u32,
    pub workspace_cwd: String,
    pub thread_key: String,
    pub shell_pid: u32,
    pub session_id: Option<String>,
    pub child_pid: Option<u32>,
    pub child_pgid: Option<u32>,
    pub child_command: Option<String>,
    pub started_at: String,
    pub updated_at: String,
}

/// Whether a client is the ingress through which local sessions reach the runtime.
pub open spec fn is_ingress_client(client: Option<Seq<char>>) -> bool {
    client == Some("threadbridge-hcodex-ingress"@) || client == Some("threadbridge-tui-proxy"@)
}

/// Whether a client is the ingress through which local sessions reach the runtime.
pub fn is_hcodex_ingress_client(client: Option<&str>) -> (res: bool)
    ensures
        res == is_ingress_client(text::opt_str_view(client)),
{
    match client {
        Some(name) => text::same_text(name, "threadbridge-hcodex-ingress") || text::same_text(
            name,
            "threadbridge-tui-proxy",
        ),
        None => false,
    }
}

/// A session is busy while a turn runs or is being finished, and at no other time: a shell that is
/// open keeps nobody waiting.
pub proof fn law_only_turns_keep_a_session_busy(phase: WorkspaceStatusPhase)
    ensures
        phase is Idle || phase is ShellActive ==> !phase.is_busy(),
        phase is TurnRunning || phase is TurnFinalizing ==> phase.is_busy(),
{
}

/// Phases are told apart by their names and by their identifiers.
pub proof fn law_phases_have_names_of_their_own(a: WorkspaceStatusPhase, b: WorkspaceStatusPhase)
    ensures
        a.name() == b.name() <==> a == b,
        a.identifier() == b.identifier() <==> a == b,
        a is Idle ==> a.name() == "idle"@ && a.identifier() == "Idle"@,
        a is ShellActive ==> a.name() == "shell_active"@ && a.identifier() == "ShellActive"@,
        a is TurnRunning ==> a.name() == "turn_running"@ && a.identifier() == "TurnRunning"@,
        a is TurnFinalizing ==> a.name() == "turn_finalizing"@ && a.identifier()
            == "TurnFinalizing"@,
{
    reveal_strlit("idle");
    reveal_strlit("shell_active");
    reveal_strlit("turn_running");
    reveal_strlit("turn_finalizing");
    reveal_strlit("Idle");
    reveal_strlit("ShellActive");
    reveal_strlit("TurnRunning");
    reveal_strlit("TurnFinalizing");
    assert("idle"@.len() == 4 && "shell_active"@.len() == 12 && "turn_running"@.len() == 12
        && "turn_finalizing"@.len() == 15);
    assert("shell_active"@[0] == 's' && "turn_running"@[0] == 't');
    assert("Idle"@.len() == 4 && "ShellActive"@.len() == 11 && "TurnRunning"@.len() == 11
        && "TurnFinalizing"@.len() == 14);
    assert("ShellActive"@[0] == 'S' && "TurnRunning"@[0] == 'T');
}

/// Whose activity it is is told by an identifier.
pub proof fn law_sources_have_identifiers_of_their_own(a: SessionActivitySource, b: SessionActivitySource)
    ensures
        a.identifier() == b.identifier() <==> a == b,
        a is Tui ==> a.identifier() == "Tui"@,
        a is ManagedRuntime ==> a.identifier() == "ManagedRuntime"@,
{
    reveal_strlit("Tui");
    reveal_strlit("ManagedRuntime");
    assert("Tui"@.len() == 3);
    assert("ManagedRuntime"@.len() == 14);
}

} // verus!
