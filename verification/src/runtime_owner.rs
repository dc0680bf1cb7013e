//! The desktop owner of the workspace runtimes: what it knows of each workspace, and how it
//! reconciles them.
use vstd::prelude::*;
use vstd::string::*;

use crate::paths;
use crate::text;

verus! {

broadcast use vstd::string::group_string_axioms;

/// What a reconciliation has done so far.
#[derive(Debug, Clone, Copy, PartialEq, Eq, Structural)]
pub struct RuntimeOwnerReconcileReport {
    pub scanned_workspaces: usize,
    pub ensured_workspaces: usize,
    pub ensured_ingresses: usize,
}

impl Default for RuntimeOwnerReconcileReport {
    fn default() -> (res: Self)
        ensures
            res == (RuntimeOwnerReconcileReport {
                scanned_workspaces: 0,
                ensured_workspaces: 0,
                ensured_ingresses: 0,
            }),
    {
        RuntimeOwnerReconcileReport {
            scanned_workspaces: 0,
            ensured_workspaces: 0,
            ensured_ingresses: 0,
        }
    }
}

/// The status of the owner.
#[derive(Debug, Clone)]
pub struct RuntimeOwnerStatus {
    pub state: &'static str,
    pub last_reconcile_started_at: Option<String>,
    pub last_reconcile_finished_at: Option<String>,
    pub last_successful_reconcile_at: Option<String>,
    pub last_error: Option<String>,
    pub last_report: RuntimeOwnerReconcileReport,
}

/// The model of the status of the owner.
#[verifier::ext_equal]
pub struct OwnerStatusModel {
    pub state: Seq<char>,
    pub last_reconcile_started_at: Option<Seq<char>>,
    pub last_reconcile_finished_at: Option<Seq<char>>,
    pub last_successful_reconcile_at: Option<Seq<char>>,
    pub last_error: Option<Seq<char>>,
    pub last_report: RuntimeOwnerReconcileReport,
}

impl View for RuntimeOwnerStatus {
    type V = OwnerStatusModel;

    open spec fn view(&self) -> OwnerStatusModel {
        OwnerStatusModel {
            state: self.state@,
            last_reconcile_started_at: text::opt_view(self.last_reconcile_started_at),
            last_reconcile_finished_at: text::opt_view(self.last_reconcile_finished_at),
            last_successful_reconcile_at: text::opt_view(self.last_successful_reconcile_at),
            last_error: text::opt_view(self.last_error),
            last_report: self.last_report,
        }
    }
}

/// The status of an owner that has reconciled nothing.
pub open spec fn status_without_history(state: Seq<char>) -> OwnerStatusModel {
    OwnerStatusModel {
        state,
        last_reconcile_started_at: None,
        last_reconcile_finished_at: None,
        last_successful_reconcile_at: None,
        last_error: None,
        last_report: RuntimeOwnerReconcileReport {
            scanned_workspaces: 0,
            ensured_workspaces: 0,
            ensured_ingresses: 0,
        },
    }
}

impl RuntimeOwnerStatus {
    /// The status where there is no owner.
    pub fn inactive() -> (res: Self)
        ensures
            res@ == status_without_history("inactive"@),
    {
        RuntimeOwnerStatus {
            state: "inactive",
            last_reconcile_started_at: None,
            last_reconcile_finished_at: None,
            last_successful_reconcile_at: None,
            last_error: None,
            last_report: RuntimeOwnerReconcileReport::default(),
        }
    }

    /// The status of an owner that has just been made.
    pub fn idle() -> (res: Self)
        ensures
            res@ == status_without_history("idle"@),
    {
        RuntimeOwnerStatus {
            state: "idle",
            last_reconcile_started_at: None,
            last_reconcile_finished_at: None,
            last_successful_reconcile_at: None,
            last_error: None,
            last_report: RuntimeOwnerReconcileReport::default(),
        }
    }
}

/// What was found of the runtime of a workspace.
#[derive(Debug, Clone)]
pub struct WorkspaceRuntimeHeartbeat {
    pub workspace_cwd: String,
    pub app_server_status: &'static str,
    pub hcodex_ingress_status: &'static str,
    pub runtime_readiness: &'static str,
    pub last_checked_at: String,
    pub last_error: Option<String>,
}

/// The model of a heartbeat.
#[verifier::ext_equal]
pub struct HeartbeatModel {
    pub workspace_cwd: Seq<char>,
    pub app_server_status: Seq<char>,
    pub hcodex_ingress_status: Seq<char>,
    pub runtime_readiness: Seq<char>,
    pub last_checked_at: Seq<char>,
    pub last_error: Option<Seq<char>>,
}

impl View for WorkspaceRuntimeHeartbeat {
    type V = HeartbeatModel;

    open spec fn view(&self) -> HeartbeatModel {
        HeartbeatModel {
            workspace_cwd: self.workspace_cwd@,
            app_server_status: self.app_server_status@,
            hcodex_ingress_status: self.hcodex_ingress_status@,
            runtime_readiness: self.runtime_readiness@,
            last_checked_at: self.last_checked_at@,
            last_error: text::opt_view(self.last_error),
        }
    }
}

/// What was read of the runtime state of a workspace, and which endpoints it names are
/// live.
#[derive(Debug, Clone, PartialEq, Eq)]
pub enum RuntimeStateReading {
    Unreadable { error: String },
    Invalid { error: String },
    Read { daemon_live: bool, ingress_live: Option<bool> },
}

/// The file that holds the runtime state of a workspace.
pub open spec fn state_file_of(workspace: Seq<char>) -> Seq<char> {
    paths::below(
        paths::below(
            paths::below(paths::below(workspace, ".threadbridge"@), "state"@),
            "app-server"@,
        ),
        "current.json"@,
    )
}

/// The heartbeat of a workspace: ready where both endpoints are live, degraded where only
/// the daemon is, and unavailable otherwise.
pub open spec fn heartbeat_of(
    workspace: Seq<char>,
    state_file: Seq<char>,
    now: Seq<char>,
    reading: RuntimeStateReading,
) -> HeartbeatModel {
    match reading {
        RuntimeStateReading::Unreadable { error } => HeartbeatModel {
            workspace_cwd: workspace,
            app_server_status: "missing"@,
            hcodex_ingress_status: "missing"@,
            runtime_readiness: "unavailable"@,
            last_checked_at: now,
            last_error: Some("failed to read "@ + state_file + ": "@ + error@),
        },
        RuntimeStateReading::Invalid { error } => HeartbeatModel {
            workspace_cwd: workspace,
            app_server_status: "invalid"@,
            hcodex_ingress_status: "invalid"@,
            runtime_readiness: "unavailable"@,
            last_checked_at: now,
            last_error: Some("invalid "@ + state_file + ": "@ + error@),
        },
        RuntimeStateReading::Read { daemon_live, ingress_live } => HeartbeatModel {
            workspace_cwd: workspace,
            app_server_status: if daemon_live {
                "running"@
            } else {
                "stale"@
            },
            hcodex_ingress_status: match ingress_live {
                Some(true) => "running"@,
                Some(false) => "stale"@,
                None => "missing"@,
            },
            runtime_readiness: if daemon_live && ingress_live == Some(true) {
                "ready"@
            } else if daemon_live {
                "degraded"@
            } else {
                "unavailable"@
            },
            last_checked_at: now,
            last_error: if daemon_live {
                None
            } else {
                Some("workspace app-server daemon is unavailable"@)
            },
        },
    }
}

/// The file that holds the runtime state of a workspace.
pub fn runtime_state_file(workspace: &str) -> (res: String)
    ensures
        res@ == state_file_of(workspace@),
{
    let hidden = paths::join(workspace, ".threadbridge");
    let state = paths::join(hidden.as_str(), "state");
    let server = paths::join(state.as_str(), "app-server");
    paths::join(server.as_str(), "current.json")
}

/// The heartbeat of a workspace, from what was read of its runtime state.
pub fn heartbeat_for_workspace(
    workspace_cwd: String,
    state_file: &str,
    last_checked_at: String,
    reading: RuntimeStateReading,
) -> (res: WorkspaceRuntimeHeartbeat)
    ensures
        res@ == heartbeat_of(workspace_cwd@, state_file@, last_checked_at@, reading),
{
    match reading {
        RuntimeStateReading::Unreadable { error } => {
            let mut message = "failed to read ".to_owned();
            message.push_str(state_file);
            message.push_str(": ");
            message.push_str(error.as_str());
            WorkspaceRuntimeHeartbeat {
                workspace_cwd,
                app_server_status: "missing",
                hcodex_ingress_status: "missing",
                runtime_readiness: "unavailable",
                last_checked_at,
                last_error: Some(message),
            }
        },
        RuntimeStateReading::Invalid { error } => {
            let mut message = "invalid ".to_owned();
            message.push_str(state_file);
            message.push_str(": ");
            message.push_str(error.as_str());
            WorkspaceRuntimeHeartbeat {
                workspace_cwd,
                app_server_status: "invalid",
                hcodex_ingress_status: "invalid",
                runtime_readiness: "unavailable",
                last_checked_at,
                last_error: Some(message),
            }
        },
        RuntimeStateReading::Read { daemon_live, ingress_live } => {
            let proxy_live = match ingress_live {
                Some(live) => live,
                None => false,
            };
            WorkspaceRuntimeHeartbeat {
                workspace_cwd,
                app_server_status: if daemon_live {
                    "running"
                } else {
                    "stale"
                },
                hcodex_ingress_status: match ingress_live {
                    Some(true) => "running",
                    Some(false) => "stale",
                    None => "missing",
                },
                runtime_readiness: if daemon_live && proxy_live {
                    "ready"
                } else if daemon_live {
                    "degraded"
                } else {
                    "unavailable"
                },
                last_checked_at,
                last_error: if daemon_live {
                    None
                } else {
                    Some("workspace app-server daemon is unavailable".to_owned())
                },
            }
        },
    }
}

/// The heartbeats of the workspaces, each workspace once.
pub struct HeartbeatTable {
    keys: Vec<String>,
    heartbeats: Vec<WorkspaceRuntimeHeartbeat>,
}

impl View for HeartbeatTable {
    type V = Map<Seq<char>, HeartbeatModel>;

    closed spec fn view(&self) -> Map<Seq<char>, HeartbeatModel> {
        Map::new(
            |key: Seq<char>| text::views(self.keys@).contains(key),
            |key: Seq<char>| self.heartbeats@[text::views(self.keys@).index_of(key)]@,
        )
    }
}

impl HeartbeatTable {
    /// Whether every workspace is there once.
    pub closed spec fn wf(self) -> bool {
        &&& self.keys@.len() == self.heartbeats@.len()
        &&& text::views(self.keys@).no_duplicates()
    }

    /// A table without heartbeats.
    pub fn new() -> (res: Self)
        ensures
            res.wf(),
            res@ == Map::<Seq<char>, HeartbeatModel>::empty(),
    {
        let res = HeartbeatTable { keys: Vec::new(), heartbeats: Vec::new() };
        proof {
            assert(res@ =~= Map::<Seq<char>, HeartbeatModel>::empty());
        }
        res
    }

    /// The position of a workspace.
    fn position(&self, key: &str) -> (res: Option<usize>)
        requires
            self.wf(),
        ensures
            match res {
                Some(i) => i < self.keys@.len() && self.keys@[i as int]@ == key@,
                None => !text::views(self.keys@).contains(key@),
            },
    {
        let mut i: usize = 0;
        while i < self.keys.len()
            invariant
                i <= self.keys@.len(),
                forall|k: int| 0 <= k < i ==> text::views(self.keys@)[k] != key@,
            decreases self.keys@.len() - i,
        {
            if text::same_text(self.keys[i].as_str(), key) {
                return Some(i);
            }
            i += 1;
        }
        None
    }

    /// The last heartbeat of a workspace.
    pub fn get(&self, key: &str) -> (res: Option<&WorkspaceRuntimeHeartbeat>)
        requires
            self.wf(),
        ensures
            match res {
                Some(heartbeat) => self@.dom().contains(key@) && heartbeat@ == self@[key@],
                None => !self@.dom().contains(key@),
            },
    {
        match self.position(key) {
            Some(i) => {
                proof {
                    let all = text::views(self.keys@);
                    assert(all[i as int] == key@);
                    assert(all.contains(key@));
                    assert(all.index_of(key@) == i);
                }
                Some(&self.heartbeats[i])
            },
            None => None,
        }
    }

    /// Notes the heartbeat of a workspace.
    pub fn insert(&mut self, key: String, heartbeat: WorkspaceRuntimeHeartbeat)
        requires
            old(self).wf(),
        ensures
            final(self).wf(),
            final(self)@ == old(self)@.insert(key@, heartbeat@),
    {
        let ghost all = text::views(self.keys@);
        let ghost shown = heartbeat@;
        let ghost name = key@;
        match self.position(key.as_str()) {
            Some(i) => {
                self.heartbeats.set(i, heartbeat);
                proof {
                    assert(all[i as int] == name);
                    assert(all.index_of(name) == i);
                    assert(final(self)@.dom() =~= old(self)@.insert(name, shown).dom());
                    assert forall|k: Seq<char>| all.contains(k) implies final(self)@[k] == old(
                        self,
                    )@.insert(name, shown)[k] by {
                        let at = all.index_of(k);
                        if k != name {
                            assert(all[at] == k);
                            assert(at != i);
                        }
                    }
                    assert(final(self)@ =~= old(self)@.insert(name, shown));
                }
            },
            None => {
                self.keys.push(key);
                self.heartbeats.push(heartbeat);
                proof {
                    let now = text::views(self.keys@);
                    assert(now =~= all.push(name));
                    assert(now[all.len() as int] == name);
                    assert forall|i: int, j: int| 0 <= i < j < now.len() implies now[i] != now[j] by {
                        if j == all.len() {
                            assert(now[i] == all[i]);
                        }
                    }
                    assert(now.no_duplicates());
                    assert forall|k: Seq<char>| now.contains(k) <==> (all.contains(k) || k == name) by {
                        if all.contains(k) {
                            let at = all.index_of(k);
                            assert(now[at] == k);
                        }
                    }
                    assert(final(self)@.dom() =~= old(self)@.insert(name, shown).dom());
                    assert forall|k: Seq<char>| now.contains(k) implies final(self)@[k] == old(
                        self,
                    )@.insert(name, shown)[k] by {
                        let at = now.index_of(k);
                        if k == name {
                            assert(at == all.len());
                        } else {
                            let was = all.index_of(k);
                            assert(now[was] == k);
                            assert(at == was);
                        }
                    }
                    assert(final(self)@ =~= old(self)@.insert(name, shown));
                }
            },
        }
    }

    /// Forgets the workspaces that are not in a list.
    pub fn retain(self, kept: &Vec<String>) -> (res: Self)
        requires
            self.wf(),
        ensures
            res.wf(),
            res@ == self@.restrict(
                Set::new(|key: Seq<char>| text::views(kept@).contains(key)),
            ),
    {
        let ghost wanted = Set::new(|key: Seq<char>| text::views(kept@).contains(key));
        let ghost all = text::views(self.keys@);
        let ghost beats = self.heartbeats@;
        let mut keys = self.keys;
        let mut heartbeats = self.heartbeats;
        let mut res = HeartbeatTable::new();
        proof {
            assert(text::views(keys@) =~= all);
            assert(res@ =~= self@.restrict(wanted).restrict(
                Set::new(|k: Seq<char>| all.skip(all.len() as int).contains(k)),
            ));
        }
        while keys.len() > 0
            invariant
                keys@.len() == heartbeats@.len(),
                keys@.len() <= all.len(),
                all.len() == beats.len(),
                all.no_duplicates(),
                text::views(keys@) =~= all.take(keys@.len() as int),
                heartbeats@ =~= beats.take(heartbeats@.len() as int),
                wanted == Set::new(|key: Seq<char>| text::views(kept@).contains(key)),
                self.wf(),
                all == text::views(self.keys@),
                beats == self.heartbeats@,
                res.wf(),
                res@ =~= self@.restrict(wanted).restrict(
                    Set::new(|k: Seq<char>| all.skip(keys@.len() as int).contains(k)),
                ),
            decreases keys@.len(),
        {
            let ghost n = keys@.len() as int;
            let ghost held = keys@;
            let ghost before = res@;
            let key = keys.pop().unwrap();
            let heartbeat = heartbeats.pop().unwrap();
            proof {
                assert(key@ == text::views(held)[n - 1]);
                assert(key@ == all[n - 1]);
                assert(heartbeat == beats[n - 1]);
                assert(text::views(keys@) =~= text::views(held).drop_last());
                assert(all.index_of(key@) == n - 1);
                assert(self@[key@] == heartbeat@);
                let wider = all.skip(n - 1);
                let narrow = all.skip(n);
                assert forall|s: Seq<char>| wider.contains(s) <==> (narrow.contains(s) || s
                    == all[n - 1]) by {
                    if wider.contains(s) {
                        let k = choose|k: int| 0 <= k < wider.len() && wider[k] == s;
                        if k > 0 {
                            assert(narrow[k - 1] == s);
                        }
                    }
                    if narrow.contains(s) {
                        let k = choose|k: int| 0 <= k < narrow.len() && narrow[k] == s;
                        assert(wider[k + 1] == s);
                    }
                    assert(wider[0] == all[n - 1]);
                }
            }
            let ghost name = key@;
            let ghost shown = heartbeat@;
            if text::list_has(kept, key.as_str()) {
                res.insert(key, heartbeat);
                proof {
                    assert(all.contains(name));
                    assert(res@ =~= self@.restrict(wanted).restrict(
                        Set::new(|k: Seq<char>| all.skip(n - 1).contains(k)),
                    ));
                }
            } else {
                proof {
                    assert(res@ =~= self@.restrict(wanted).restrict(
                        Set::new(|k: Seq<char>| all.skip(n - 1).contains(k)),
                    ));
                }
            }
        }
        proof {
            assert(all.skip(0) =~= all);
            assert(res@ =~= self@.restrict(wanted));
        }
        res
    }
}

/// A reconciliation under way: the workspaces in their order, how many of them are done,
/// and what has been done.
pub struct Reconciliation {
    pub workspaces: Vec<String>,
    pub position: usize,
    pub report: RuntimeOwnerReconcileReport,
}

impl Reconciliation {
    /// Whether the report counts the workspaces that are done.
    pub open spec fn wf(self) -> bool {
        &&& self.position <= self.workspaces@.len()
        &&& self.report.scanned_workspaces == self.workspaces@.len()
        &&& self.report.ensured_workspaces == self.position
        &&& self.report.ensured_ingresses <= self.position
        &&& text::is_increasing(text::views(self.workspaces@))
    }

    /// The workspace to ensure next.
    pub fn next_workspace(&self) -> (res: Option<&str>)
        requires
            self.wf(),
        ensures
            match res {
                Some(workspace) => self.position < self.workspaces@.len() && workspace@
                    == self.workspaces@[self.position as int]@,
                None => self.position == self.workspaces@.len(),
            },
    {
        if self.position < self.workspaces.len() {
            Some(self.workspaces[self.position].as_str())
        } else {
            None
        }
    }
}

/// The owner of the workspace runtimes.
pub struct DesktopRuntimeOwner {
    pub status: RuntimeOwnerStatus,
    pub heartbeats: HeartbeatTable,
}

/// The status of the owner while a reconciliation is under way.
pub open spec fn started(status: OwnerStatusModel, now: Seq<char>) -> OwnerStatusModel {
    OwnerStatusModel {
        state: "running"@,
        last_reconcile_started_at: Some(now),
        last_error: None,
        ..status
    }
}

/// The status of the owner after a reconciliation that failed.
pub open spec fn stopped(
    status: OwnerStatusModel,
    report: RuntimeOwnerReconcileReport,
    error: Seq<char>,
    now: Seq<char>,
) -> OwnerStatusModel {
    OwnerStatusModel {
        state: "error"@,
        last_reconcile_finished_at: Some(now),
        last_error: Some(error),
        last_report: report,
        ..status
    }
}

/// The status of the owner after a reconciliation that succeeded.
pub open spec fn completed(
    status: OwnerStatusModel,
    report: RuntimeOwnerReconcileReport,
    now: Seq<char>,
) -> OwnerStatusModel {
    OwnerStatusModel {
        state: "healthy"@,
        last_reconcile_finished_at: Some(now),
        last_successful_reconcile_at: Some(now),
        last_error: None,
        last_report: report,
        ..status
    }
}

/// The heartbeat of a workspace that could not be ensured.
pub open spec fn failed_heartbeat(
    workspace: Seq<char>,
    now: Seq<char>,
    error: Seq<char>,
) -> HeartbeatModel {
    HeartbeatModel {
        workspace_cwd: workspace,
        app_server_status: "unavailable"@,
        hcodex_ingress_status: "unavailable"@,
        runtime_readiness: "unavailable"@,
        last_checked_at: now,
        last_error: Some(error),
    }
}

impl DesktopRuntimeOwner {
    /// An owner that has reconciled nothing.
    pub fn new() -> (res: Self)
        ensures
            res.status@ == status_without_history("idle"@),
            res.heartbeats.wf(),
            res.heartbeats@ == Map::<Seq<char>, HeartbeatModel>::empty(),
    {
        DesktopRuntimeOwner { status: RuntimeOwnerStatus::idle(), heartbeats: HeartbeatTable::new() }
    }

    /// The last heartbeat of a workspace, by its canonical path.
    pub fn workspace_heartbeat(&self, key: &str) -> (res: Option<&WorkspaceRuntimeHeartbeat>)
        requires
            self.heartbeats.wf(),
        ensures
            match res {
                Some(heartbeat) => self.heartbeats@.dom().contains(key@) && heartbeat@
                    == self.heartbeats@[key@],
                None => !self.heartbeats@.dom().contains(key@),
            },
    {
        self.heartbeats.get(key)
    }

    /// Begins to reconcile workspaces, given by their canonical paths: each once, in
    /// increasing order.
    pub fn reconcile_managed_workspaces(&mut self, workspaces: Vec<String>, now: String) -> (res:
        Reconciliation)
        ensures
            res.wf(),
            res.position == 0,
            res.report.ensured_ingresses == 0,
            forall|s: Seq<char>|
                text::views(res.workspaces@).contains(s) <==> text::views(workspaces@).contains(s),
            final(self).status@ == started(old(self).status@, now@),
            final(self).heartbeats == old(self).heartbeats,
    {
        let workspaces = text::sorted_distinct(workspaces);
        self.status.state = "running";
        self.status.last_reconcile_started_at = Some(now);
        self.status.last_error = None;
        let report = RuntimeOwnerReconcileReport {
            scanned_workspaces: workspaces.len(),
            ensured_workspaces: 0,
            ensured_ingresses: 0,
        };
        Reconciliation { workspaces, position: 0, report }
    }

    /// Notes that the next workspace was ensured, with the ingress that its runtime names
    /// and the heartbeat that was found.
    pub fn workspace_ensured(
        &mut self,
        reconciliation: &mut Reconciliation,
        hcodex_ws_url: Option<&str>,
        heartbeat: WorkspaceRuntimeHeartbeat,
    )
        requires
            old(self).heartbeats.wf(),
            old(reconciliation).wf(),
            old(reconciliation).position < old(reconciliation).workspaces.len(),
        ensures
            final(self).heartbeats.wf(),
            final(self).heartbeats@ == old(self).heartbeats@.insert(
                old(reconciliation).workspaces@[old(reconciliation).position as int]@,
                heartbeat@,
            ),
            final(self).status == old(self).status,
            final(reconciliation).wf(),
            final(reconciliation).workspaces == old(reconciliation).workspaces,
            final(reconciliation).position == old(reconciliation).position + 1,
            final(reconciliation).report.ensured_ingresses == old(
                reconciliation,
            ).report.ensured_ingresses + (if text::filled(text::opt_str_view(hcodex_ws_url)) is Some {
                1int
            } else {
                0int
            }),
    {
        let key = reconciliation.workspaces[reconciliation.position].clone();
        self.heartbeats.insert(key, heartbeat);
        reconciliation.position += 1;
        reconciliation.report.ensured_workspaces += 1;
        if text::trim_filled(hcodex_ws_url).is_some() {
            reconciliation.report.ensured_ingresses += 1;
        }
    }

    /// Notes that the next workspace could not be ensured, which ends the reconciliation.
    pub fn workspace_failed(
        &mut self,
        reconciliation: &Reconciliation,
        error: &str,
        checked_at: String,
        finished_at: String,
    )
        requires
            old(self).heartbeats.wf(),
            reconciliation.wf(),
            reconciliation.position < reconciliation.workspaces@.len(),
        ensures
            final(self).heartbeats.wf(),
            final(self).heartbeats@ == ({
                let workspace = reconciliation.workspaces@[reconciliation.position as int]@;
                old(self).heartbeats@.insert(
                    workspace,
                    failed_heartbeat(workspace, checked_at@, error@),
                )
            }),
            final(self).status@ == stopped(
                old(self).status@,
                reconciliation.report,
                error@,
                finished_at@,
            ),
    {
        let key = reconciliation.workspaces[reconciliation.position].clone();
        let heartbeat = WorkspaceRuntimeHeartbeat {
            workspace_cwd: key.clone(),
            app_server_status: "unavailable",
            hcodex_ingress_status: "unavailable",
            runtime_readiness: "unavailable",
            last_checked_at: checked_at,
            last_error: Some(error.to_owned()),
        };
        self.heartbeats.insert(key, heartbeat);
        self.status.state = "error";
        self.status.last_reconcile_finished_at = Some(finished_at);
        self.status.last_error = Some(error.to_owned());
        self.status.last_report = reconciliation.report;
    }

    /// Ends a reconciliation in which all workspaces were ensured: the heartbeats of all
    /// others are forgotten.
    pub fn finish_reconcile(self, reconciliation: &Reconciliation, finished_at: String) -> (res: (
        Self,
        RuntimeOwnerReconcileReport,
    ))
        requires
            self.heartbeats.wf(),
            reconciliation.wf(),
            reconciliation.position == reconciliation.workspaces@.len(),
        ensures
            res.0.heartbeats.wf(),
            res.0.heartbeats@ == self.heartbeats@.restrict(
                Set::new(
                    |key: Seq<char>| text::views(reconciliation.workspaces@).contains(key),
                ),
            ),
            res.0.status@ == completed(self.status@, reconciliation.report, finished_at@),
            res.1 == reconciliation.report,
    {
        let heartbeats = self.heartbeats.retain(&reconciliation.workspaces);
        let mut status = self.status;
        status.state = "healthy";
        status.last_reconcile_finished_at = Some(finished_at.clone());
        status.last_successful_reconcile_at = Some(finished_at);
        status.last_error = None;
        status.last_report = reconciliation.report;
        (DesktopRuntimeOwner { status, heartbeats }, reconciliation.report)
    }
}

/// A workspace is ready only where its daemon and its ingress run, and a readiness is
/// reported with an error exactly where the daemon does not run.
pub proof fn law_heartbeat_readiness(
    workspace: Seq<char>,
    state_file: Seq<char>,
    now: Seq<char>,
    reading: RuntimeStateReading,
)
    ensures
        ({
            let heartbeat = heartbeat_of(workspace, state_file, now, reading);
            &&& heartbeat.runtime_readiness == "ready"@ <==> heartbeat.app_server_status
                == "running"@ && heartbeat.hcodex_ingress_status == "running"@
            &&& heartbeat.last_error is None <==> heartbeat.app_server_status == "running"@
            &&& heartbeat.runtime_readiness == "unavailable"@ <==> heartbeat.last_error is Some
        }),
{
    reveal_strlit("ready");
    reveal_strlit("running");
    reveal_strlit("stale");
    reveal_strlit("missing");
    reveal_strlit("invalid");
    reveal_strlit("degraded");
    reveal_strlit("unavailable");
    assert("ready"@.len() != "degraded"@.len());
    assert("ready"@.len() != "unavailable"@.len());
    assert("degraded"@.len() != "unavailable"@.len());
    assert("running"@.len() != "stale"@.len());
    assert("running"@[0] != "missing"@[0]);
    assert("running"@[0] != "invalid"@[0]);
}

/// A reconciliation that fails keeps when the last one succeeded, and one that succeeds
/// leaves no error.
pub proof fn law_reconcile_history(
    status: OwnerStatusModel,
    report: RuntimeOwnerReconcileReport,
    error: Seq<char>,
    then: Seq<char>,
    now: Seq<char>,
)
    ensures
        stopped(started(status, then), report, error, now).last_successful_reconcile_at
            == status.last_successful_reconcile_at,
        completed(started(status, then), report, now).last_error is None,
        completed(stopped(started(status, then), report, error, now), report, now)
            == completed(started(status, then), report, now),
{
}

/// A heartbeat says what was found: a daemon that answers runs and one that does not is stale, and
/// so for the ingress, which is missing where the state names none. Where no state could be read
/// nothing is known to run, and the error tells which file it was and why.
pub proof fn law_heartbeats_say_what_was_found(
    workspace: Seq<char>,
    state_file: Seq<char>,
    now: Seq<char>,
    reading: RuntimeStateReading,
)
    ensures
        ({
            let heartbeat = heartbeat_of(workspace, state_file, now, reading);
            &&& heartbeat.workspace_cwd == workspace
            &&& heartbeat.last_checked_at == now
            &&& reading matches RuntimeStateReading::Read { daemon_live, ingress_live } ==> {
                &&& daemon_live ==> heartbeat.app_server_status == "running"@
                    && heartbeat.last_error is None
                &&& !daemon_live ==> heartbeat.app_server_status == "stale"@
                    && heartbeat.runtime_readiness == "unavailable"@
                &&& ingress_live == Some(true) ==> heartbeat.hcodex_ingress_status == "running"@
                &&& ingress_live == Some(false) ==> heartbeat.hcodex_ingress_status == "stale"@
                &&& ingress_live is None ==> heartbeat.hcodex_ingress_status == "missing"@
                &&& daemon_live && ingress_live == Some(true) ==> heartbeat.runtime_readiness
                    == "ready"@
                &&& daemon_live && ingress_live != Some(true) ==> heartbeat.runtime_readiness
                    == "degraded"@
            }
            &&& reading matches RuntimeStateReading::Unreadable { error } ==> {
                &&& heartbeat.app_server_status == "missing"@
                &&& heartbeat.hcodex_ingress_status == "missing"@
                &&& heartbeat.runtime_readiness == "unavailable"@
                &&& heartbeat.last_error is Some
                &&& text::contains(heartbeat.last_error->0, state_file)
                &&& error@.is_suffix_of(heartbeat.last_error->0)
            }
            &&& reading matches RuntimeStateReading::Invalid { error } ==> {
                &&& heartbeat.app_server_status == "invalid"@
                &&& heartbeat.hcodex_ingress_status == "invalid"@
                &&& heartbeat.runtime_readiness == "unavailable"@
                &&& heartbeat.last_error is Some
                &&& text::contains(heartbeat.last_error->0, state_file)
                &&& error@.is_suffix_of(heartbeat.last_error->0)
            }
        }),
{
    match reading {
        RuntimeStateReading::Unreadable { error } => {
            let said = "failed to read "@ + state_file + ": "@ + error@;
            let at = "failed to read "@.len() as int;
            assert(said.subrange(at, at + state_file.len()) =~= state_file);
            assert(text::occurs_at(said, state_file, at));
            assert(said.skip(said.len() - error@.len()) =~= error@);
        },
        RuntimeStateReading::Invalid { error } => {
            let said = "invalid "@ + state_file + ": "@ + error@;
            let at = "invalid "@.len() as int;
            assert(said.subrange(at, at + state_file.len()) =~= state_file);
            assert(text::occurs_at(said, state_file, at));
            assert(said.skip(said.len() - error@.len()) =~= error@);
        },
        _ => {},
    }
}

/// The status of an owner follows its reconciliations: it runs while one is under way, is in error
/// behind one that failed and healthy behind one that did not, and says when that was, what was
/// done and why it failed.
pub proof fn law_owners_tell_how_it_went(
    status: OwnerStatusModel,
    report: RuntimeOwnerReconcileReport,
    error: Seq<char>,
    now: Seq<char>,
)
    ensures
        started(status, now).state == "running"@,
        started(status, now).last_reconcile_started_at == Some(now),
        started(status, now).last_error is None,
        started(status, now).last_report == status.last_report,
        started(status, now).last_reconcile_finished_at == status.last_reconcile_finished_at,
        stopped(status, report, error, now).state == "error"@,
        stopped(status, report, error, now).last_error == Some(error),
        stopped(status, report, error, now).last_reconcile_finished_at == Some(now),
        stopped(status, report, error, now).last_report == report,
        stopped(status, report, error, now).last_reconcile_started_at
            == status.last_reconcile_started_at,
        completed(status, report, now).state == "healthy"@,
        completed(status, report, now).last_reconcile_finished_at == Some(now),
        completed(status, report, now).last_successful_reconcile_at == Some(now),
        completed(status, report, now).last_report == report,
        completed(status, report, now).last_reconcile_started_at
            == status.last_reconcile_started_at,
{
}

/// A workspace that could not be ensured is not available, and its heartbeat tells why.
pub proof fn law_failed_workspaces_are_unavailable(
    workspace: Seq<char>,
    now: Seq<char>,
    error: Seq<char>,
)
    ensures
        failed_heartbeat(workspace, now, error).workspace_cwd == workspace,
        failed_heartbeat(workspace, now, error).last_checked_at == now,
        failed_heartbeat(workspace, now, error).last_error == Some(error),
        failed_heartbeat(workspace, now, error).runtime_readiness == "unavailable"@,
        failed_heartbeat(workspace, now, error).app_server_status == "unavailable"@,
        failed_heartbeat(workspace, now, error).hcodex_ingress_status == "unavailable"@,
{
}

} // verus!
