//! With which permissions Codex executes commands in a workspace.
use vstd::prelude::*;

verus! {

/// Codex asks before it leaves the workspace, or never asks.
#[derive(Clone, Copy, Debug, PartialEq, Eq, Structural)]
pub enum ExecutionMode {
    FullAuto,
    Yolo,
}

impl Default for ExecutionMode {
    fn default() -> (res: Self)
        ensures
            res == ExecutionMode::FullAuto,
    {
        ExecutionMode::FullAuto
    }
}

impl ExecutionMode {
    /// The name of the mode.
    pub open spec fn name(self) -> Seq<char> {
        match self {
            ExecutionMode::FullAuto => "full_auto"@,
            ExecutionMode::Yolo => "yolo"@,
        }
    }

    /// When Codex asks for approval in this mode.
    pub open spec fn approval(self) -> Seq<char> {
        match self {
            ExecutionMode::FullAuto => "on-request"@,
            ExecutionMode::Yolo => "never"@,
        }
    }

    /// The sandbox that commands run in in this mode.
    pub open spec fn sandbox(self) -> Seq<char> {
        match self {
            ExecutionMode::FullAuto => "workspace-write"@,
            ExecutionMode::Yolo => "danger-full-access"@,
        }
    }

    /// The option that starts the launcher in this mode.
    pub open spec fn flag(self) -> Seq<char> {
        match self {
            ExecutionMode::FullAuto => "--full-auto"@,
            ExecutionMode::Yolo => "--yolo"@,
        }
    }

    /// The option that starts the launcher in this mode.
    pub fn hcodex_flag(self) -> (res: &'static str)
        ensures
            res@ == self.flag(),
    {
        match self {
            ExecutionMode::FullAuto => "--full-auto",
            ExecutionMode::Yolo => "--yolo",
        }
    }

    /// The name of the mode.
    pub fn as_str(self) -> (res: &'static str)
        ensures
            res@ == self.name(),
    {
        match self {
            ExecutionMode::FullAuto => "full_auto",
            ExecutionMode::Yolo => "yolo",
        }
    }
}

/// The permissions that a session was started with.
#[derive(Debug, Clone, PartialEq, Eq)]
pub struct SessionExecutionSnapshot {
    pub execution_mode: Option<ExecutionMode>,
    pub approval_policy: Option<String>,
    pub sandbox_policy: Option<String>,
}

impl SessionExecutionSnapshot {
    /// The permissions of a mode.
    pub fn from_mode(mode: ExecutionMode) -> (res: Self)
        ensures
            res.execution_mode == Some(mode),
            crate::text::opt_view(res.approval_policy) == Some(mode.approval()),
            crate::text::opt_view(res.sandbox_policy) == Some(mode.sandbox()),
    {
        let (approval, sandbox) = match mode {
            ExecutionMode::FullAuto => ("on-request", "workspace-write"),
            ExecutionMode::Yolo => ("never", "danger-full-access"),
        };
        SessionExecutionSnapshot {
            execution_mode: Some(mode),
            approval_policy: Some(approval.to_owned()),
            sandbox_policy: Some(sandbox.to_owned()),
        }
    }
}

/// The mode that asks keeps commands in the workspace, and the mode that never asks lets them do
/// anything; the launcher is started in either by an option of its own.
pub proof fn law_modes_have_permissions_of_their_own(mode: ExecutionMode)
    ensures
        mode is FullAuto ==> mode.approval() == "on-request"@ && mode.sandbox()
            == "workspace-write"@ && mode.flag() == "--full-auto"@ && mode.name() == "full_auto"@,
        mode is Yolo ==> mode.approval() == "never"@ && mode.sandbox() == "danger-full-access"@
            && mode.flag() == "--yolo"@ && mode.name() == "yolo"@,
{
}

} // verus!
