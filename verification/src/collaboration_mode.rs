//! How a thread collaborates with Codex.
use vstd::prelude::*;

verus! {

/// Codex works at once, or makes a plan first.
#[derive(Clone, Copy, Debug, PartialEq, Eq, Structural)]
pub enum CollaborationMode {
    Default,
    Plan,
}

impl CollaborationMode {
    /// The name of the mode.
    pub open spec fn name(self) -> Seq<char> {
        match self {
            CollaborationMode::Default => "default"@,
            CollaborationMode::Plan => "plan"@,
        }
    }

    /// The name of the mode.
    pub fn as_str(self) -> (res: &'static str)
        ensures
            res@ == self.name(),
    {
        match self {
            CollaborationMode::Default => "default",
            CollaborationMode::Plan => "plan",
        }
    }
}

/// Modes are told apart by their names.
pub proof fn law_modes_have_names_of_their_own(a: CollaborationMode, b: CollaborationMode)
    ensures
        a.name() == b.name() <==> a == b,
        a is Plan ==> a.name() == "plan"@,
        a is Default ==> a.name() == "default"@,
{
    reveal_strlit("default");
    reveal_strlit("plan");
    assert("default"@.len() == 7 && "plan"@.len() == 4);
}

} // verus!
