//! Sessions that a runtime left busy when it stopped, and what becomes of them when it starts again.
use vstd::prelude::*;
use vstd::string::*;

use crate::repository;
use crate::repository::SessionBinding;
use crate::text;
use crate::thread_state;
use crate::workspace_status::{SessionActivitySource, SessionCurrentStatus, WorkspaceStatusPhase};

verus! {

broadcast use vstd::string::group_string_axioms;

/// What was found and done.
#[derive(Debug, Clone, Copy, PartialEq, Eq, Structural)]
pub struct StaleBusyReconciliationReport {
    pub scanned_threads: usize,
    pub unique_sessions: usize,
    pub recovered_sessions: usize,
    pub recovered_threads: usize,
    pub skipped_threads: usize,
}

/// What is to be done about the sessions that were left busy.
#[derive(Debug)]
pub struct StaleBusyReconciliation {
    pub report: StaleBusyReconciliationReport,
    /// The statuses that are to be stored.
    pub statuses: Vec<SessionCurrentStatus>,
    /// The threads in whose logs the recovery is to be noted, by their positions.
    pub threads: Vec<usize>,
}

/// A session of a workspace.
#[derive(Debug)]
pub struct SessionKey {
    pub workspace: String,
    pub session_id: String,
}

/// A session of a workspace, by its texts.
#[verifier::ext_equal]
pub struct KeyModel {
    pub workspace: Seq<char>,
    pub session_id: Seq<char>,
}

impl View for SessionKey {
    type V = KeyModel;

    open spec fn view(&self) -> KeyModel {
        KeyModel { workspace: self.workspace@, session_id: self.session_id@ }
    }
}

/// The session that a status is about.
pub open spec fn key_of(status: SessionCurrentStatus) -> KeyModel {
    KeyModel { workspace: status.workspace_cwd@, session_id: status.session_id@ }
}

/// The session that a thread uses, where it is bound to one.
pub open spec fn bound_key(binding: Option<SessionBinding>) -> Option<KeyModel> {
    let model = repository::opt_binding(binding);
    match (thread_state::workspace_of(model), model) {
        (Some(workspace), Some(bound)) => match text::filled(bound.current_codex_thread_id) {
            Some(session_id) => Some(KeyModel { workspace, session_id }),
            None => None,
        },
        _ => None,
    }
}

/// Where the status of a session stands among the stored ones, from `from` on.
pub open spec fn stored_from(stored: Seq<SessionCurrentStatus>, key: KeyModel, from: int) -> Option<
    int,
>
    decreases stored.len() - from,
{
    if from < 0 || from >= stored.len() {
        None
    } else if key_of(stored[from]) == key {
        Some(from)
    } else {
        stored_from(stored, key, from + 1)
    }
}

/// Whether a status is that of a session that the runtime itself kept busy.
pub open spec fn is_left_busy(status: SessionCurrentStatus) -> bool {
    status.phase.is_busy() && status.activity_source == SessionActivitySource::ManagedRuntime
}

/// Whether the runtime left a session busy.
pub open spec fn is_stale(stored: Seq<SessionCurrentStatus>, key: KeyModel) -> bool {
    match stored_from(stored, key, 0) {
        Some(at) => is_left_busy(stored[at]),
        None => false,
    }
}

/// A status whose session was set back to idle.
pub open spec fn set_idle(status: SessionCurrentStatus) -> SessionCurrentStatus {
    SessionCurrentStatus { phase: WorkspaceStatusPhase::Idle, turn_id: None, ..status }
}

/// Whether a thread uses a session that was left busy.
pub open spec fn uses_stale(
    stored: Seq<SessionCurrentStatus>,
    binding: Option<SessionBinding>,
) -> bool {
    bound_key(binding) is Some && is_stale(stored, bound_key(binding)->0)
}

/// The sessions that the first `n` threads use, each once, in the order of the threads.
pub open spec fn sessions_of(bindings: Seq<Option<SessionBinding>>, n: int) -> Seq<KeyModel>
    decreases n,
{
    if n <= 0 {
        Seq::empty()
    } else {
        let before = sessions_of(bindings, n - 1);
        match bound_key(bindings[n - 1]) {
            Some(key) => if before.contains(key) {
                before
            } else {
                before.push(key)
            },
            None => before,
        }
    }
}

/// The new statuses of those sessions, among some, that were left busy, in order.
pub open spec fn recovered_of(
    stored: Seq<SessionCurrentStatus>,
    sessions: Seq<KeyModel>,
) -> Seq<SessionCurrentStatus>
    decreases sessions.len(),
{
    if sessions.len() == 0 {
        Seq::empty()
    } else {
        let before = recovered_of(stored, sessions.drop_last());
        if is_stale(stored, sessions.last()) {
            before.push(set_idle(stored[stored_from(stored, sessions.last(), 0)->0]))
        } else {
            before
        }
    }
}

/// Those of the first `n` threads that use a session that was left busy, by their positions.
pub open spec fn threads_of(
    stored: Seq<SessionCurrentStatus>,
    bindings: Seq<Option<SessionBinding>>,
    n: int,
) -> Seq<usize>
    decreases n,
{
    if n <= 0 {
        Seq::empty()
    } else {
        let before = threads_of(stored, bindings, n - 1);
        if uses_stale(stored, bindings[n - 1]) {
            before.push((n - 1) as usize)
        } else {
            before
        }
    }
}

/// Some sessions, by their texts.
pub open spec fn key_views(keys: Seq<SessionKey>) -> Seq<KeyModel> {
    keys.map_values(|key: SessionKey| key@)
}

fn find_bound(binding: &Option<SessionBinding>) -> (res: Option<SessionKey>)
    ensures
        match res {
            Some(key) => bound_key(*binding) == Some(key@),
            None => bound_key(*binding) is None,
        },
{
    match binding {
        Some(bound) => match (
            thread_state::binding_workspace_path(Some(bound)),
            thread_state::current_session_id(bound),
        ) {
            (Some(workspace), Some(session_id)) => Some(
                SessionKey { workspace: workspace.to_owned(), session_id: session_id.to_owned() },
            ),
            _ => None,
        },
        None => None,
    }
}

fn find_stored(stored: &Vec<SessionCurrentStatus>, key: &SessionKey) -> (res: Option<usize>)
    ensures
        match res {
            Some(at) => stored_from(stored@, key@, 0) == Some(at as int) && at < stored@.len(),
            None => stored_from(stored@, key@, 0) is None,
        },
{
    let mut i: usize = 0;
    while i < stored.len()
        invariant
            i <= stored@.len(),
            stored_from(stored@, key@, 0) == stored_from(stored@, key@, i as int),
        decreases stored@.len() - i,
    {
        if text::same_text(stored[i].workspace_cwd.as_str(), key.workspace.as_str())
            && text::same_text(stored[i].session_id.as_str(), key.session_id.as_str()) {
            return Some(i);
        }
        i += 1;
    }
    None
}

fn knows(keys: &Vec<SessionKey>, key: &SessionKey) -> (res: bool)
    ensures
        res == key_views(keys@).contains(key@),
{
    let mut i: usize = 0;
    while i < keys.len()
        invariant
            i <= keys@.len(),
            forall|k: int| 0 <= k < i ==> key_views(keys@)[k] != key@,
        decreases keys@.len() - i,
    {
        if text::same_text(keys[i].workspace.as_str(), key.workspace.as_str()) && text::same_text(
            keys[i].session_id.as_str(),
            key.session_id.as_str(),
        ) {
            assert(key_views(keys@)[i as int] == key@);
            return true;
        }
        i += 1;
    }
    false
}

fn make_idle(status: &SessionCurrentStatus) -> (res: SessionCurrentStatus)
    ensures
        res == set_idle(*status),
{
    SessionCurrentStatus {
        schema_version: status.schema_version,
        workspace_cwd: status.workspace_cwd.clone(),
        session_id: status.session_id.clone(),
        activity_source: status.activity_source,
        live: status.live,
        phase: WorkspaceStatusPhase::Idle,
        shell_pid: status.shell_pid,
        child_pid: status.child_pid,
        child_pgid: status.child_pgid,
        child_command: text::clone_opt(&status.child_command),
        client: text::clone_opt(&status.client),
        turn_id: None,
        summary: text::clone_opt(&status.summary),
        pending_interrupt_turn_id: text::clone_opt(&status.pending_interrupt_turn_id),
        pending_interrupt_requested_at: text::clone_opt(&status.pending_interrupt_requested_at),
        observer_attach_mode: text::clone_opt(&status.observer_attach_mode),
        updated_at: status.updated_at.clone(),
    }
}

/// What is to be done about the sessions that the runtime left busy, given the bindings of the
/// threads in use and what is stored of their sessions: each such session is set back to idle
/// once, and noted in the log of every thread that uses it. Sessions of local clients are left
/// alone.
pub fn reconcile_stale_bot_busy_sessions(
    bindings: &Vec<Option<SessionBinding>>,
    stored: &Vec<SessionCurrentStatus>,
) -> (res: StaleBusyReconciliation)
    ensures
        ({
            let all = bindings@.len() as int;
            let sessions = sessions_of(bindings@, all);
            &&& res.threads@ == threads_of(stored@, bindings@, all)
            &&& res.statuses@ == recovered_of(stored@, sessions)
            &&& res.report.scanned_threads == all
            &&& res.report.unique_sessions == sessions.len()
            &&& res.report.recovered_sessions == res.statuses@.len()
            &&& res.report.recovered_threads == res.threads@.len()
            &&& res.report.skipped_threads == all - res.threads@.len()
        }),
{
    let mut sessions: Vec<SessionKey> = Vec::new();
    let mut statuses: Vec<SessionCurrentStatus> = Vec::new();
    let mut threads: Vec<usize> = Vec::new();
    let mut i: usize = 0;
    while i < bindings.len()
        invariant
            i <= bindings@.len(),
            key_views(sessions@) == sessions_of(bindings@, i as int),
            statuses@ == recovered_of(stored@, sessions_of(bindings@, i as int)),
            threads@ == threads_of(stored@, bindings@, i as int),
            threads@.len() <= i,
        decreases bindings@.len() - i,
    {
        let ghost before = sessions_of(bindings@, i as int);
        match find_bound(&bindings[i]) {
            Some(key) => {
                let at = find_stored(stored, &key);
                let stale = match at {
                    Some(at) => stored[at].phase.is_turn_busy() && stored[at].activity_source
                        == SessionActivitySource::ManagedRuntime,
                    None => false,
                };
                if stale {
                    threads.push(i);
                }
                if !knows(&sessions, &key) {
                    match at {
                        Some(at) => {
                            if stale {
                                statuses.push(make_idle(&stored[at]));
                            }
                        },
                        None => {},
                    }
                    let ghost shown = key@;
                    sessions.push(key);
                    proof {
                        assert(key_views(sessions@) =~= before.push(shown));
                        assert(before.push(shown).drop_last() =~= before);
                    }
                }
            },
            None => {},
        }
        i += 1;
    }
    let report = StaleBusyReconciliationReport {
        scanned_threads: bindings.len(),
        unique_sessions: sessions.len(),
        recovered_sessions: statuses.len(),
        recovered_threads: threads.len(),
        skipped_threads: bindings.len() - threads.len(),
    };
    StaleBusyReconciliation { report, statuses, threads }
}

/// The sessions of the threads are each listed once, and none is left out.
pub proof fn law_sessions_are_counted_once(bindings: Seq<Option<SessionBinding>>, n: int)
    requires
        0 <= n <= bindings.len(),
    ensures
        sessions_of(bindings, n).no_duplicates(),
        forall|key: KeyModel| #[trigger]
            sessions_of(bindings, n).contains(key) <==> exists|i: int|
                0 <= i < n && #[trigger] bound_key(bindings[i]) == Some(key),
    decreases n,
{
    if n > 0 {
        law_sessions_are_counted_once(bindings, n - 1);
        let before = sessions_of(bindings, n - 1);
        let after = sessions_of(bindings, n);
        assert forall|key: KeyModel| #[trigger] after.contains(key) <==> exists|i: int|
            0 <= i < n && #[trigger] bound_key(bindings[i]) == Some(key) by {
            if before.contains(key) {
                let at = before.index_of(key);
                assert(after[at] == key);
                let i = choose|i: int|
                    0 <= i < n - 1 && #[trigger] bound_key(bindings[i]) == Some(key);
                assert(bound_key(bindings[i]) == Some(key));
            }
            if bound_key(bindings[n - 1]) == Some(key) && !before.contains(key) {
                assert(after[after.len() - 1] == key);
            }
            if after.contains(key) && !before.contains(key) {
                let at = after.index_of(key);
                if at < before.len() {
                    assert(before[at] == key);
                }
                assert(bound_key(bindings[n - 1]) == Some(key));
            }
            if exists|i: int| 0 <= i < n && #[trigger] bound_key(bindings[i]) == Some(key) {
                let i = choose|i: int|
                    0 <= i < n && #[trigger] bound_key(bindings[i]) == Some(key);
                if i < n - 1 {
                    assert(before.contains(key));
                }
            }
        }
    }
}

/// What the status found among the stored ones is.
proof fn lemma_stored(stored: Seq<SessionCurrentStatus>, key: KeyModel, from: int)
    requires
        0 <= from,
    ensures
        stored_from(stored, key, from) matches Some(at) ==> from <= at < stored.len() && key_of(
            stored[at],
        ) == key,
    decreases stored.len() - from,
{
    if from < stored.len() && key_of(stored[from]) != key {
        lemma_stored(stored, key, from + 1);
    }
}

/// Every session that was left busy is set back to idle, once; nothing else is changed. In
/// particular a session of a local client is left alone.
pub proof fn law_stale_sessions_are_recovered_once(
    stored: Seq<SessionCurrentStatus>,
    sessions: Seq<KeyModel>,
)
    requires
        sessions.no_duplicates(),
    ensures
        forall|i: int|
            0 <= i < recovered_of(stored, sessions).len() ==> {
                let status = #[trigger] recovered_of(stored, sessions)[i];
                &&& sessions.contains(key_of(status))
                &&& is_stale(stored, key_of(status))
                &&& status.phase == WorkspaceStatusPhase::Idle
                &&& status.turn_id is None
                &&& status.activity_source == SessionActivitySource::ManagedRuntime
            },
        forall|i: int, j: int|
            0 <= i < j < recovered_of(stored, sessions).len() ==> key_of(
                #[trigger] recovered_of(stored, sessions)[i],
            ) != key_of(#[trigger] recovered_of(stored, sessions)[j]),
        forall|k: int|
            #![trigger sessions[k]]
            0 <= k < sessions.len() && is_stale(stored, sessions[k]) ==> exists|i: int|
                0 <= i < recovered_of(stored, sessions).len() && key_of(
                    #[trigger] recovered_of(stored, sessions)[i],
                ) == sessions[k],
    decreases sessions.len(),
{
    if sessions.len() > 0 {
        let before = sessions.drop_last();
        let last = sessions.last();
        assert(before.no_duplicates());
        law_stale_sessions_are_recovered_once(stored, before);
        lemma_stored(stored, last, 0);
        let was = recovered_of(stored, before);
        let now = recovered_of(stored, sessions);
        assert(forall|key: KeyModel| before.contains(key) ==> sessions.contains(key)) by {
            assert forall|key: KeyModel| before.contains(key) implies sessions.contains(key) by {
                let at = before.index_of(key);
                assert(sessions[at] == key);
            }
        }
        assert(!before.contains(last)) by {
            if before.contains(last) {
                let at = before.index_of(last);
                assert(sessions[at] == sessions[sessions.len() - 1]);
            }
        }
        assert(sessions.contains(last)) by {
            assert(sessions[sessions.len() - 1] == last);
        }
        assert(forall|i: int| 0 <= i < was.len() ==> now[i] == was[i]);
        assert forall|i: int| 0 <= i < now.len() implies {
            let status = #[trigger] now[i];
            &&& sessions.contains(key_of(status))
            &&& is_stale(stored, key_of(status))
            &&& status.phase == WorkspaceStatusPhase::Idle
            &&& status.turn_id is None
            &&& status.activity_source == SessionActivitySource::ManagedRuntime
        } by {
            if i < was.len() {
                assert(before.contains(key_of(was[i])));
            } else {
                assert(key_of(now[i]) == last);
            }
        }
        assert forall|i: int, j: int| 0 <= i < j < now.len() implies key_of(#[trigger] now[i])
            != key_of(#[trigger] now[j]) by {
            if j == was.len() {
                assert(before.contains(key_of(was[i])));
                assert(key_of(now[j]) == last);
            } else {
                assert(key_of(was[i]) != key_of(was[j]));
            }
        }
        assert forall|k: int|
            #![trigger sessions[k]]
            0 <= k < sessions.len() && is_stale(stored, sessions[k]) implies exists|i: int|
            0 <= i < now.len() && key_of(#[trigger] now[i]) == sessions[k] by {
            if k < before.len() {
                assert(before[k] == sessions[k]);
                let i = choose|i: int|
                    0 <= i < was.len() && key_of(#[trigger] was[i]) == before[k];
                assert(key_of(now[i]) == sessions[k]);
            } else {
                assert(key_of(now[was.len() as int]) == sessions[k]);
            }
        }
    }
}

/// A recovery is noted for exactly the threads that use a session that was left busy.
pub proof fn law_recovered_threads_are_noted(
    stored: Seq<SessionCurrentStatus>,
    bindings: Seq<Option<SessionBinding>>,
    n: int,
)
    requires
        0 <= n <= bindings.len() <= usize::MAX,
    ensures
        threads_of(stored, bindings, n).len() <= n,
        threads_of(stored, bindings, n).no_duplicates(),
        forall|i: usize| #[trigger]
            threads_of(stored, bindings, n).contains(i) <==> i < n && uses_stale(
                stored,
                bindings[i as int],
            ),
    decreases n,
{
    if n > 0 {
        law_recovered_threads_are_noted(stored, bindings, n - 1);
        let before = threads_of(stored, bindings, n - 1);
        let after = threads_of(stored, bindings, n);
        assert(!before.contains((n - 1) as usize));
        assert(after.no_duplicates()) by {
            assert forall|i: int, j: int| 0 <= i < j < after.len() implies after[i] != after[j] by {
                assert(before[i] == after[i]);
                assert(before.contains(after[i]));
            }
        }
        assert forall|i: usize| #[trigger] after.contains(i) <==> i < n && uses_stale(
            stored,
            bindings[i as int],
        ) by {
            if before.contains(i) {
                let at = before.index_of(i);
                assert(after[at] == i);
            }
            if after.contains(i) && !before.contains(i) {
                let at = after.index_of(i);
                if at < before.len() {
                    assert(before[at] == i);
                }
            }
            if i == n - 1 && uses_stale(stored, bindings[n - 1]) {
                assert(after[after.len() - 1] == i);
            }
        }
    }
}

/// A session was left busy where a turn of it ran, or was being finished, in the runtime itself; one
/// of a local client never was. Setting it back to idle forgets the turn and nothing else.
pub proof fn law_only_own_turns_are_left_busy(status: SessionCurrentStatus)
    ensures
        is_left_busy(status) <==> (status.phase is TurnRunning || status.phase is TurnFinalizing)
            && status.activity_source is ManagedRuntime,
        set_idle(status).phase is Idle,
        set_idle(status).turn_id is None,
        set_idle(status).session_id == status.session_id,
        set_idle(status).workspace_cwd == status.workspace_cwd,
        set_idle(status).activity_source == status.activity_source,
        set_idle(status).live == status.live,
        set_idle(status).updated_at == status.updated_at,
        !is_left_busy(set_idle(status)),
{
}

/// A thread uses the session that its binding names, in the workspace that it names; a binding that
/// lacks either, or names it by white space, uses none.
pub proof fn law_threads_use_the_session_of_their_binding(binding: SessionBinding)
    ensures
        ({
            let has_workspace = binding.workspace_cwd is Some && !text::is_blank(
                binding.workspace_cwd->0@,
            );
            let has_session = binding.current_codex_thread_id is Some && !text::is_blank(
                binding.current_codex_thread_id->0@,
            );
            &&& bound_key(Some(binding)) is Some <==> has_workspace && has_session
            &&& bound_key(Some(binding)) matches Some(key) ==> key.workspace == text::trimmed(
                binding.workspace_cwd->0@,
            ) && key.session_id == text::trimmed(binding.current_codex_thread_id->0@)
        }),
        bound_key(None) is None,
{
}

} // verus!
