//! To which session the input from the front end goes: to that of the binding, or to one of
//! a local terminal interface, which is then adopted.
use vstd::prelude::*;
use vstd::string::*;

use crate::repository::{SessionBinding, ThreadRecord};
use crate::runtime_control;
use crate::runtime_control::ControlError;
use crate::text;
use crate::workspace_status::{LocalTuiSessionClaim, SessionActivitySource, SessionCurrentStatus};

verus! {

broadcast use vstd::string::group_string_axioms;

/// Why a session of the terminal interface is adopted.
#[derive(Debug, Clone, Copy, PartialEq, Eq, Structural)]
pub enum SessionRoutingKind {
    Pending,
    LiveTui,
}

/// What the routing of input has come to, with the thread and binding as they are now.
#[derive(Debug)]
pub enum SessionRoutingResult {
    Unchanged { record: ThreadRecord, session: Option<SessionBinding> },
    AdoptedPending { record: ThreadRecord, session: Option<SessionBinding> },
    AdoptedLiveTui { record: ThreadRecord, session: Option<SessionBinding> },
    BrokenAfterFailedVerify { record: ThreadRecord, session: Option<SessionBinding> },
}

impl SessionRoutingResult {
    /// The thread and the binding.
    pub open spec fn parts(self) -> (ThreadRecord, Option<SessionBinding>) {
        match self {
            SessionRoutingResult::Unchanged { record, session } => (record, session),
            SessionRoutingResult::AdoptedPending { record, session } => (record, session),
            SessionRoutingResult::AdoptedLiveTui { record, session } => (record, session),
            SessionRoutingResult::BrokenAfterFailedVerify { record, session } => (record, session),
        }
    }

    /// The thread and the binding.
    pub fn into_record_session(self) -> (res: (ThreadRecord, Option<SessionBinding>))
        ensures
            res == self.parts(),
    {
        match self {
            SessionRoutingResult::Unchanged { record, session } => (record, session),
            SessionRoutingResult::AdoptedPending { record, session } => (record, session),
            SessionRoutingResult::AdoptedLiveTui { record, session } => (record, session),
            SessionRoutingResult::BrokenAfterFailedVerify { record, session } => (record, session),
        }
    }
}

/// What the routing of input has come to.
#[derive(Debug, Clone, Copy, PartialEq, Eq, Structural)]
pub enum RoutingOutcome {
    Unchanged,
    Adopted(SessionRoutingKind),
    BrokenAfterFailedVerify,
}

impl RoutingOutcome {
    /// The outcome with the thread and binding as they are now.
    pub fn into_result(self, record: ThreadRecord, session: Option<SessionBinding>) -> (res:
        SessionRoutingResult)
        ensures
            res == match self {
                RoutingOutcome::Unchanged => SessionRoutingResult::Unchanged { record, session },
                RoutingOutcome::Adopted(SessionRoutingKind::Pending) => {
                    SessionRoutingResult::AdoptedPending { record, session }
                },
                RoutingOutcome::Adopted(SessionRoutingKind::LiveTui) => {
                    SessionRoutingResult::AdoptedLiveTui { record, session }
                },
                RoutingOutcome::BrokenAfterFailedVerify => {
                    SessionRoutingResult::BrokenAfterFailedVerify { record, session }
                },
            },
    {
        match self {
            RoutingOutcome::Unchanged => SessionRoutingResult::Unchanged { record, session },
            RoutingOutcome::Adopted(SessionRoutingKind::Pending) => {
                SessionRoutingResult::AdoptedPending { record, session }
            },
            RoutingOutcome::Adopted(SessionRoutingKind::LiveTui) => {
                SessionRoutingResult::AdoptedLiveTui { record, session }
            },
            RoutingOutcome::BrokenAfterFailedVerify => {
                SessionRoutingResult::BrokenAfterFailedVerify { record, session }
            },
        }
    }
}

/// What is put on record about the routing of input.
#[derive(Debug, Clone, PartialEq, Eq)]
pub enum RoutingLog {
    Adopted { kind: SessionRoutingKind, session_id: String },
    VerificationFailed { session_id: String, reason: String },
}

impl RoutingLog {
    /// The line that is put on record.
    pub open spec fn line(self) -> Seq<char> {
        match self {
            RoutingLog::Adopted { kind: SessionRoutingKind::Pending, session_id } => {
                "Auto-adopted pending TUI session `"@ + session_id@
                    + "` on the next Telegram input."@
            },
            RoutingLog::Adopted { kind: SessionRoutingKind::LiveTui, session_id } => {
                "Auto-adopted live TUI session `"@ + session_id@
                    + "` for Telegram input routing."@
            },
            RoutingLog::VerificationFailed { session_id, reason } => {
                "TUI session adoption verification failed for `"@ + session_id@ + "`: "@ + reason@
            },
        }
    }

    /// The line that is put on record.
    pub fn to_line(&self) -> (res: String)
        ensures
            res@ == self.line(),
    {
        match self {
            RoutingLog::Adopted { kind: SessionRoutingKind::Pending, session_id } => text::concat3(
                "Auto-adopted pending TUI session `",
                session_id.as_str(),
                "` on the next Telegram input.",
            ),
            RoutingLog::Adopted { kind: SessionRoutingKind::LiveTui, session_id } => text::concat3(
                "Auto-adopted live TUI session `",
                session_id.as_str(),
                "` for Telegram input routing.",
            ),
            RoutingLog::VerificationFailed { session_id, reason } => text::concat4(
                "TUI session adoption verification failed for `",
                session_id.as_str(),
                "`: ",
                reason.as_str(),
            ),
        }
    }
}

/// How far the routing has come.
#[derive(Debug)]
pub enum RoutingStage {
    ReadClaim { workspace: String, session_id: String },
    ReadStatus { workspace: String, session_id: String },
    Verify { kind: SessionRoutingKind, session_id: String },
    Adopt { kind: SessionRoutingKind, session_id: String },
    LogAdopted { kind: SessionRoutingKind },
    ClearAdoption { session_id: String, reason: String },
    LogFailure { session_id: String, reason: String },
    MarkBroken,
    Finished,
}

/// What happened outside.
#[derive(Debug)]
pub enum RoutingEvent {
    /// The claim of a terminal interface to a session of the workspace.
    Claim(Option<LocalTuiSessionClaim>),
    /// The status of the session of the terminal interface.
    Status(Option<SessionCurrentStatus>),
    /// The step was done.
    Done,
    /// The session could not be reconnected to, for the reason given.
    Refused(String),
    /// The step failed, for the reason given.
    Failed(String),
}

/// What is to be done outside.
#[derive(Debug)]
pub enum RoutingStep {
    ReadClaim { workspace: String },
    ReadStatus { workspace: String, session_id: String },
    /// Reconnect to the session.
    Verify { workspace: String, session_id: String },
    Adopt,
    ClearAdoption,
    /// Mark the binding broken; the reason is the line on record.
    MarkBroken { log: RoutingLog },
    Log { log: RoutingLog },
    Finish { outcome: Result<RoutingOutcome, ControlError> },
}

/// A routing that is under way.
#[derive(Debug)]
pub struct RoutingRun {
    pub thread_key: String,
    pub stage: RoutingStage,
}

/// The end of the routing.
pub open spec fn routed(outcome: Result<RoutingOutcome, ControlError>) -> (RoutingStage, RoutingStep) {
    (RoutingStage::Finished, RoutingStep::Finish { outcome })
}

/// How the routing starts. Input goes to the session of the binding unless a session of the
/// terminal interface is to be adopted, or another one than that of the binding may be live.
pub open spec fn routing_start(session: Option<SessionBinding>) -> (RoutingStage, RoutingStep) {
    match session {
        Some(binding) => match binding.tui_active_codex_thread_id {
            Some(session_id) => {
                if binding.tui_session_adoption_pending {
                    match binding.workspace_cwd {
                        Some(workspace) => (
                            RoutingStage::Verify { kind: SessionRoutingKind::Pending, session_id },
                            RoutingStep::Verify { workspace, session_id },
                        ),
                        None => routed(Err(ControlError::MissingWorkspace)),
                    }
                } else if runtime_control::bound_session(Some(binding@)) == Some(session_id@) {
                    routed(Ok(RoutingOutcome::Unchanged))
                } else {
                    match binding.workspace_cwd {
                        Some(workspace) => (
                            RoutingStage::ReadClaim { workspace, session_id },
                            RoutingStep::ReadClaim { workspace },
                        ),
                        None => routed(Err(ControlError::MissingWorkspace)),
                    }
                }
            },
            None => routed(Ok(RoutingOutcome::Unchanged)),
        },
        None => routed(Ok(RoutingOutcome::Unchanged)),
    }
}

/// Whether a claim is for a session of a thread.
pub open spec fn is_claimed(claim: LocalTuiSessionClaim, thread_key: Seq<char>, session_id: Seq<char>) -> bool {
    claim.thread_key@ == thread_key && text::opt_view(claim.session_id) == Some(session_id)
}

/// Whether a session of the terminal interface is live.
pub open spec fn is_live(status: Option<SessionCurrentStatus>) -> bool {
    status matches Some(status) && status.activity_source == SessionActivitySource::Tui
        && status.live
}

/// The next stage of the routing and what is to be done there.
pub open spec fn routing_next(run: RoutingRun, event: RoutingEvent) -> (RoutingStage, RoutingStep) {
    match (run.stage, event) {
        (RoutingStage::Finished, _) => routed(Err(ControlError::OutOfTurn)),
        (_, RoutingEvent::Failed(reason)) => routed(Err(ControlError::Outside(reason))),
        (RoutingStage::ReadClaim { workspace, session_id }, RoutingEvent::Claim(claim)) => {
            match claim {
                Some(claim) => if is_claimed(claim, run.thread_key@, session_id@) {
                    (
                        RoutingStage::ReadStatus { workspace, session_id },
                        RoutingStep::ReadStatus { workspace, session_id },
                    )
                } else {
                    routed(Ok(RoutingOutcome::Unchanged))
                },
                None => routed(Ok(RoutingOutcome::Unchanged)),
            }
        },
        (RoutingStage::ReadStatus { workspace, session_id }, RoutingEvent::Status(status)) => {
            if is_live(status) {
                (
                    RoutingStage::Verify { kind: SessionRoutingKind::LiveTui, session_id },
                    RoutingStep::Verify { workspace, session_id },
                )
            } else {
                routed(Ok(RoutingOutcome::Unchanged))
            }
        },
        (RoutingStage::Verify { kind, session_id }, RoutingEvent::Done) => (
            RoutingStage::Adopt { kind, session_id },
            RoutingStep::Adopt,
        ),
        (RoutingStage::Verify { kind, session_id }, RoutingEvent::Refused(reason)) => (
            RoutingStage::ClearAdoption { session_id, reason },
            RoutingStep::ClearAdoption,
        ),
        (RoutingStage::Adopt { kind, session_id }, RoutingEvent::Done) => (
            RoutingStage::LogAdopted { kind },
            RoutingStep::Log { log: RoutingLog::Adopted { kind, session_id } },
        ),
        (RoutingStage::LogAdopted { kind }, RoutingEvent::Done) => routed(
            Ok(RoutingOutcome::Adopted(kind)),
        ),
        (RoutingStage::ClearAdoption { session_id, reason }, RoutingEvent::Done) => (
            RoutingStage::LogFailure { session_id, reason },
            RoutingStep::Log { log: RoutingLog::VerificationFailed { session_id, reason } },
        ),
        (RoutingStage::LogFailure { session_id, reason }, RoutingEvent::Done) => (
            RoutingStage::MarkBroken,
            RoutingStep::MarkBroken { log: RoutingLog::VerificationFailed { session_id, reason } },
        ),
        (RoutingStage::MarkBroken, RoutingEvent::Done) => routed(
            Ok(RoutingOutcome::BrokenAfterFailedVerify),
        ),
        _ => routed(Err(ControlError::OutOfTurn)),
    }
}

/// The end of the routing.
fn finish(outcome: Result<RoutingOutcome, ControlError>) -> (res: (RoutingStage, RoutingStep))
    ensures
        res == routed(outcome),
{
    (RoutingStage::Finished, RoutingStep::Finish { outcome })
}

/// How the routing starts.
fn start(session: Option<SessionBinding>) -> (res: (RoutingStage, RoutingStep))
    ensures
        res == routing_start(session),
{
    let binding = match session {
        Some(binding) => binding,
        None => return finish(Ok(RoutingOutcome::Unchanged)),
    };
    let is_own = match (
        runtime_control::current_bound_session_id(Some(&binding)),
        text::as_deref(&binding.tui_active_codex_thread_id),
    ) {
        (Some(current), Some(tui)) => text::same_text(current, tui),
        _ => false,
    };
    let session_id = match binding.tui_active_codex_thread_id {
        Some(session_id) => session_id,
        None => return finish(Ok(RoutingOutcome::Unchanged)),
    };
    if !binding.tui_session_adoption_pending && is_own {
        return finish(Ok(RoutingOutcome::Unchanged));
    }
    let workspace = match binding.workspace_cwd {
        Some(workspace) => workspace,
        None => return finish(Err(ControlError::MissingWorkspace)),
    };
    if binding.tui_session_adoption_pending {
        (
            RoutingStage::Verify {
                kind: SessionRoutingKind::Pending,
                session_id: session_id.clone(),
            },
            RoutingStep::Verify { workspace, session_id },
        )
    } else {
        (
            RoutingStage::ReadClaim { workspace: workspace.clone(), session_id },
            RoutingStep::ReadClaim { workspace },
        )
    }
}

impl RoutingRun {
    /// Starts to route input for a thread with its binding.
    pub fn begin(thread_key: String, session: Option<SessionBinding>) -> (res: (Self, RoutingStep))
        ensures
            res.0.thread_key == thread_key,
            (res.0.stage, res.1) == routing_start(session),
    {
        let (stage, step) = start(session);
        (RoutingRun { thread_key, stage }, step)
    }

    /// Goes on after what happened outside.
    pub fn advance(self, event: RoutingEvent) -> (res: (Self, RoutingStep))
        ensures
            res.0.thread_key == self.thread_key,
            (res.0.stage, res.1) == routing_next(self, event),
    {
        let thread_key = self.thread_key;
        let (stage, step) = match (self.stage, event) {
            (RoutingStage::Finished, _) => finish(Err(ControlError::OutOfTurn)),
            (_, RoutingEvent::Failed(reason)) => finish(Err(ControlError::Outside(reason))),
            (RoutingStage::ReadClaim { workspace, session_id }, RoutingEvent::Claim(claim)) => {
                let claimed = match &claim {
                    Some(claim) => {
                        text::same_text(claim.thread_key.as_str(), thread_key.as_str())
                            && text::same_opt_text(
                            text::as_deref(&claim.session_id),
                            Some(session_id.as_str()),
                        )
                    },
                    None => false,
                };
                if claimed {
                    (
                        RoutingStage::ReadStatus {
                            workspace: workspace.clone(),
                            session_id: session_id.clone(),
                        },
                        RoutingStep::ReadStatus { workspace, session_id },
                    )
                } else {
                    finish(Ok(RoutingOutcome::Unchanged))
                }
            },
            (RoutingStage::ReadStatus { workspace, session_id }, RoutingEvent::Status(status)) => {
                let live = match &status {
                    Some(status) => status.activity_source == SessionActivitySource::Tui
                        && status.live,
                    None => false,
                };
                if live {
                    (
                        RoutingStage::Verify {
                            kind: SessionRoutingKind::LiveTui,
                            session_id: session_id.clone(),
                        },
                        RoutingStep::Verify { workspace, session_id },
                    )
                } else {
                    finish(Ok(RoutingOutcome::Unchanged))
                }
            },
            (RoutingStage::Verify { kind, session_id }, RoutingEvent::Done) => (
                RoutingStage::Adopt { kind, session_id },
                RoutingStep::Adopt,
            ),
            (RoutingStage::Verify { session_id, .. }, RoutingEvent::Refused(reason)) => (
                RoutingStage::ClearAdoption { session_id, reason },
                RoutingStep::ClearAdoption,
            ),
            (RoutingStage::Adopt { kind, session_id }, RoutingEvent::Done) => (
                RoutingStage::LogAdopted { kind },
                RoutingStep::Log { log: RoutingLog::Adopted { kind, session_id } },
            ),
            (RoutingStage::LogAdopted { kind }, RoutingEvent::Done) => finish(
                Ok(RoutingOutcome::Adopted(kind)),
            ),
            (RoutingStage::ClearAdoption { session_id, reason }, RoutingEvent::Done) => (
                RoutingStage::LogFailure {
                    session_id: session_id.clone(),
                    reason: reason.clone(),
                },
                RoutingStep::Log { log: RoutingLog::VerificationFailed { session_id, reason } },
            ),
            (RoutingStage::LogFailure { session_id, reason }, RoutingEvent::Done) => (
                RoutingStage::MarkBroken,
                RoutingStep::MarkBroken {
                    log: RoutingLog::VerificationFailed { session_id, reason },
                },
            ),
            (RoutingStage::MarkBroken, RoutingEvent::Done) => finish(
                Ok(RoutingOutcome::BrokenAfterFailedVerify),
            ),
            _ => finish(Err(ControlError::OutOfTurn)),
        };
        (RoutingRun { thread_key, stage }, step)
    }
}

/// How many steps may still follow.
pub open spec fn routing_steps_left(stage: RoutingStage) -> nat {
    match stage {
        RoutingStage::ReadClaim { .. } => 6,
        RoutingStage::ReadStatus { .. } => 5,
        RoutingStage::Verify { .. } => 4,
        RoutingStage::Adopt { .. } => 3,
        RoutingStage::ClearAdoption { .. } => 3,
        RoutingStage::LogAdopted { .. } => 2,
        RoutingStage::LogFailure { .. } => 2,
        RoutingStage::MarkBroken => 1,
        RoutingStage::Finished => 0,
    }
}

/// The routing ends: each step brings it nearer to its end, whatever happens outside.
pub proof fn law_routing_ends(run: RoutingRun, event: RoutingEvent)
    requires
        !(run.stage is Finished),
    ensures
        routing_steps_left(routing_next(run, event).0) < routing_steps_left(run.stage),
        routing_next(run, event).0 is Finished <==> routing_next(run, event).1 is Finish,
{
}

/// No session is adopted unless it was reconnected to first; where that was refused, the
/// adoption is cleared and the binding marked broken, and nothing is adopted.
pub proof fn law_adoption_is_verified(run: RoutingRun, event: RoutingEvent)
    ensures
        routing_next(run, event).1 is Adopt ==> run.stage is Verify && event is Done,
        run.stage is Verify && event is Refused ==> routing_next(run, event).1 is ClearAdoption,
        routing_next(run, event).1 matches RoutingStep::Finish {
            outcome: Ok(RoutingOutcome::Adopted(kind)),
        } ==> run.stage == (RoutingStage::LogAdopted { kind }),
{
}

/// Input for a thread without a session of the terminal interface goes where it always went.
pub proof fn law_no_tui_session_no_routing(session: Option<SessionBinding>)
    requires
        session matches Some(binding) ==> binding.tui_active_codex_thread_id is None,
    ensures
        routing_start(session) == routed(Ok(RoutingOutcome::Unchanged)),
{
}

/// A session that waits for adoption is verified without being looked for, and adopted once it
/// answers, in the workspace of the binding. One that is not claimed by the thread, or that is not
/// live, is left alone.
pub proof fn law_pending_sessions_are_adopted(
    thread_key: String,
    binding: SessionBinding,
    session_id: String,
    workspace: String,
)
    requires
        binding.tui_active_codex_thread_id == Some(session_id),
        binding.tui_session_adoption_pending,
        binding.workspace_cwd == Some(workspace),
    ensures
        ({
            let begun = routing_start(Some(binding));
            let verified = routing_next(
                RoutingRun { thread_key, stage: begun.0 },
                RoutingEvent::Done,
            );
            let adopted = routing_next(
                RoutingRun { thread_key, stage: verified.0 },
                RoutingEvent::Done,
            );
            let logged = routing_next(
                RoutingRun { thread_key, stage: adopted.0 },
                RoutingEvent::Done,
            );
            &&& begun.1 == (RoutingStep::Verify { workspace, session_id })
            &&& verified.1 is Adopt
            &&& adopted.1 == (RoutingStep::Log {
                log: RoutingLog::Adopted { kind: SessionRoutingKind::Pending, session_id },
            })
            &&& logged.1 == (RoutingStep::Finish {
                outcome: Ok(RoutingOutcome::Adopted(SessionRoutingKind::Pending)),
            })
        }),
{
}

/// A session of the terminal interface that does not wait for adoption is adopted only if this
/// thread claims it and it is live; where either is not so, input goes where it always went.
pub proof fn law_live_sessions_are_adopted(
    thread_key: String,
    binding: SessionBinding,
    session_id: String,
    workspace: String,
    claim: Option<LocalTuiSessionClaim>,
    status: Option<SessionCurrentStatus>,
)
    requires
        binding.tui_active_codex_thread_id == Some(session_id),
        !binding.tui_session_adoption_pending,
        binding.workspace_cwd == Some(workspace),
    ensures
        ({
            let begun = routing_start(Some(binding));
            let claimed = routing_next(
                RoutingRun { thread_key, stage: begun.0 },
                RoutingEvent::Claim(claim),
            );
            let read = routing_next(
                RoutingRun { thread_key, stage: claimed.0 },
                RoutingEvent::Status(status),
            );
            let is_own = binding.current_codex_thread_id is Some && !text::is_blank(
                binding.current_codex_thread_id->0@,
            ) && text::trimmed(binding.current_codex_thread_id->0@) == session_id@;
            let is_claimed = claim is Some && claim->0.thread_key@ == thread_key@
                && claim->0.session_id is Some && claim->0.session_id->0@ == session_id@;
            let is_live = status is Some && status->0.live && status->0.activity_source is Tui;
            let unchanged = RoutingStep::Finish { outcome: Ok(RoutingOutcome::Unchanged) };
            &&& is_own ==> begun.1 == unchanged
            &&& !is_own ==> begun.1 == (RoutingStep::ReadClaim { workspace })
            &&& !is_own && !is_claimed ==> claimed.1 == unchanged
            &&& !is_own && is_claimed ==> claimed.1 == (RoutingStep::ReadStatus {
                workspace,
                session_id,
            })
            &&& !is_own && is_claimed && !is_live ==> read.1 == unchanged
            &&& !is_own && is_claimed && is_live ==> read.1 == (RoutingStep::Verify {
                workspace,
                session_id,
            }) && read.0 == (RoutingStage::Verify {
                kind: SessionRoutingKind::LiveTui,
                session_id,
            })
        }),
{
}

/// A session that does not answer is not adopted: the adoption is cleared, the failure put on
/// record with its reason, and the binding marked broken with the same words.
pub proof fn law_refused_sessions_break_the_binding(
    thread_key: String,
    kind: SessionRoutingKind,
    session_id: String,
    reason: String,
)
    ensures
        ({
            let stage = RoutingStage::Verify { kind, session_id };
            let refused = routing_next(
                RoutingRun { thread_key, stage },
                RoutingEvent::Refused(reason),
            );
            let cleared = routing_next(
                RoutingRun { thread_key, stage: refused.0 },
                RoutingEvent::Done,
            );
            let logged = routing_next(
                RoutingRun { thread_key, stage: cleared.0 },
                RoutingEvent::Done,
            );
            let marked = routing_next(
                RoutingRun { thread_key, stage: logged.0 },
                RoutingEvent::Done,
            );
            let log = RoutingLog::VerificationFailed { session_id, reason };
            &&& refused.1 is ClearAdoption
            &&& cleared.1 == (RoutingStep::Log { log })
            &&& logged.1 == (RoutingStep::MarkBroken { log })
            &&& marked.1 == (RoutingStep::Finish {
                outcome: Ok(RoutingOutcome::BrokenAfterFailedVerify),
            })
        }),
{
}

/// A routing that has failed outside ends with that reason, wherever it was; one that is over does
/// nothing more.
pub proof fn law_routing_fails_with_the_reason(run: RoutingRun, reason: String)
    ensures
        run.stage !is Finished ==> routing_next(run, RoutingEvent::Failed(reason)).1 == (
        RoutingStep::Finish { outcome: Err(ControlError::Outside(reason)) }),
        run.stage is Finished ==> routing_next(run, RoutingEvent::Failed(reason)).1 == (
        RoutingStep::Finish { outcome: Err(ControlError::OutOfTurn) }),
{
}

/// A line on record names the session that it is about, and a failure its reason.
pub proof fn law_lines_name_their_session(log: RoutingLog)
    ensures
        log matches RoutingLog::Adopted { session_id, .. } ==> text::contains(
            log.line(),
            session_id@,
        ),
        log matches RoutingLog::VerificationFailed { session_id, reason } ==> text::contains(
            log.line(),
            session_id@,
        ) && reason@.is_suffix_of(log.line()),
{
    match log {
        RoutingLog::Adopted { kind: SessionRoutingKind::Pending, session_id } => {
            let head = "Auto-adopted pending TUI session `"@;
            let at = head.len() as int;
            assert(log.line().subrange(at, at + session_id@.len()) =~= session_id@);
            assert(text::occurs_at(log.line(), session_id@, at));
        },
        RoutingLog::Adopted { kind: SessionRoutingKind::LiveTui, session_id } => {
            let head = "Auto-adopted live TUI session `"@;
            let at = head.len() as int;
            assert(log.line().subrange(at, at + session_id@.len()) =~= session_id@);
            assert(text::occurs_at(log.line(), session_id@, at));
        },
        RoutingLog::VerificationFailed { session_id, reason } => {
            let head = "TUI session adoption verification failed for `"@;
            let at = head.len() as int;
            assert(log.line().subrange(at, at + session_id@.len()) =~= session_id@);
            assert(text::occurs_at(log.line(), session_id@, at));
            assert(log.line().skip(log.line().len() - reason@.len()) =~= reason@);
        },
    }
}

/// Nothing is taken that was not asked for: a routing that has ended stays so, and an event of another
/// step ends it.
pub proof fn law_routing_takes_only_what_was_asked_for(run: RoutingRun, event: RoutingEvent)
    ensures
        run.stage is Finished ==> routing_next(run, event) == routed(Err(ControlError::OutOfTurn)),
        run.stage is Adopt && event !is Done && event !is Failed ==> routing_next(run, event)
            == routed(Err(ControlError::OutOfTurn)),
        routed(Err(ControlError::OutOfTurn)).0 is Finished,
{
}

} // verus!
