//! What a user is told while a turn runs.
use vstd::prelude::*;
use vstd::string::*;

use crate::text;
use crate::workspace_status::{SessionActivitySource, SessionCurrentStatus, WorkspaceStatusPhase};

verus! {

broadcast use vstd::string::group_string_axioms;

/// Who runs the turn.
pub open spec fn busy_owner(source: SessionActivitySource) -> Seq<char> {
    match source {
        SessionActivitySource::Tui => "shared TUI session"@,
        SessionActivitySource::ManagedRuntime => "Telegram session"@,
    }
}

/// What the turn is doing.
pub open spec fn busy_phase(phase: WorkspaceStatusPhase) -> Seq<char> {
    if phase == WorkspaceStatusPhase::TurnFinalizing {
        "` is settling after an interrupt request. "@
    } else {
        "` is running a turn. "@
    }
}

/// What a user is told who sends a command.
pub open spec fn busy_command_text(busy: SessionCurrentStatus) -> Seq<char> {
    "The "@ + busy_owner(busy.activity_source) + " `"@ + busy.session_id@ + busy_phase(busy.phase)
        + "Wait for it to finish or use /stop before you run this command."@
}

/// What a user is told who sends a prompt, with or without an image.
pub open spec fn busy_prompt_text(busy: SessionCurrentStatus, with_image: bool) -> Seq<char> {
    "The "@ + busy_owner(busy.activity_source) + " `"@ + busy.session_id@ + busy_phase(busy.phase)
        + if with_image {
        "Wait for it to finish or use /stop before you send another image."@
    } else {
        "Wait for it to finish or use /stop before you send another message."@
    }
}

/// The part of the texts that is the same.
fn busy_start(busy: &SessionCurrentStatus) -> (res: String)
    ensures
        res@ == "The "@ + busy_owner(busy.activity_source) + " `"@ + busy.session_id@ + busy_phase(
            busy.phase,
        ),
{
    let owner = match busy.activity_source {
        SessionActivitySource::Tui => "shared TUI session",
        SessionActivitySource::ManagedRuntime => "Telegram session",
    };
    let phase = if busy.phase == WorkspaceStatusPhase::TurnFinalizing {
        "` is settling after an interrupt request. "
    } else {
        "` is running a turn. "
    };
    text::concat5("The ", owner, " `", busy.session_id.as_str(), phase)
}

/// What a user is told who sends a command.
pub fn busy_command_message(busy: &SessionCurrentStatus) -> (res: String)
    ensures
        res@ == busy_command_text(*busy),
{
    let mut res = busy_start(busy);
    res.push_str("Wait for it to finish or use /stop before you run this command.");
    res
}

/// What a user is told who sends a prompt, with or without an image.
pub fn busy_text_message(busy: &SessionCurrentStatus, with_image: bool) -> (res: String)
    ensures
        res@ == busy_prompt_text(*busy, with_image),
{
    let mut res = busy_start(busy);
    if with_image {
        res.push_str("Wait for it to finish or use /stop before you send another image.");
    } else {
        res.push_str("Wait for it to finish or use /stop before you send another message.");
    }
    res
}

/// A user who has to wait is told for which session, whose it is, whether its turn runs or settles,
/// and that /stop ends the wait; the text names what they were about to send.
pub proof fn law_waiting_users_are_told_what_for(busy: SessionCurrentStatus)
    ensures
        ({
            let command = busy_command_text(busy);
            let message = busy_prompt_text(busy, false);
            let image = busy_prompt_text(busy, true);
            let owner = if busy.activity_source is Tui {
                "The shared TUI session `"@
            } else {
                "The Telegram session `"@
            };
            let state = if busy.phase is TurnFinalizing {
                "` is settling after an interrupt request. "@
            } else {
                "` is running a turn. "@
            };
            let start = owner + busy.session_id@ + state;
            &&& command == start
                + "Wait for it to finish or use /stop before you run this command."@
            &&& message == start
                + "Wait for it to finish or use /stop before you send another message."@
            &&& image == start
                + "Wait for it to finish or use /stop before you send another image."@
        }),
{
    reveal_strlit("The ");
    reveal_strlit(" `");
    reveal_strlit("shared TUI session");
    reveal_strlit("Telegram session");
    reveal_strlit("The shared TUI session `");
    reveal_strlit("The Telegram session `");
    assert("The "@ + "shared TUI session"@ + " `"@ =~= "The shared TUI session `"@);
    assert("The "@ + "Telegram session"@ + " `"@ =~= "The Telegram session `"@);
}

} // verus!
