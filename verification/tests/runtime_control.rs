use threadbridge::collaboration_mode::CollaborationMode;
use threadbridge::execution_mode::{ExecutionMode, SessionExecutionSnapshot};
use threadbridge::repository::SessionBinding;
use threadbridge::runtime_control::{
    apple_script_string, bind_conflict, hcodex_launch_command, probe_events_file, probe_json_file,
    reconnect_target_thread_id, resolve_workspace_add, shell_quote, terminal_script,
    workspace_thread_title, ControlError, ControlEvent, ControlLog, ControlOutcome, ControlRun,
    ControlStep, LaunchPlan, LaunchSession, RuntimeOwnershipMode, ThreadLog, WorkspaceAddPreflight,
    WorkspaceAddResolution, WorkspaceBindingSummary, WorkspaceSurfacePaths, WorkspaceSurfaceProbe,
    WorkspaceSurfaceProbeFile,
};
use threadbridge::runtime_protocol::{
    InterruptRunningTurnState, LaunchLocalSessionTarget, RuntimeControlActionRequest,
};
use threadbridge::thread_state::{
    BindingStatus, LifecycleStatus, ResolvedThreadState, RunStatus,
};
use threadbridge::workspace_status::{
    SessionActivitySource, SessionCurrentStatus, WorkspaceStatusPhase,
};

fn binding(session: Option<&str>) -> SessionBinding {
    SessionBinding::fresh(
        Some("/work".to_owned()),
        session.map(str::to_owned),
        SessionExecutionSnapshot::from_mode(ExecutionMode::FullAuto),
    )
}

fn busy(turn_id: Option<&str>) -> SessionCurrentStatus {
    SessionCurrentStatus {
        schema_version: 2,
        workspace_cwd: "/work".to_owned(),
        session_id: "thr_a".to_owned(),
        activity_source: SessionActivitySource::ManagedRuntime,
        live: true,
        phase: WorkspaceStatusPhase::TurnRunning,
        shell_pid: None,
        child_pid: None,
        child_pgid: None,
        child_command: None,
        client: None,
        turn_id: turn_id.map(str::to_owned),
        summary: None,
        pending_interrupt_turn_id: None,
        pending_interrupt_requested_at: None,
        observer_attach_mode: None,
        updated_at: "2026-03-27T00:00:00.000Z".to_owned(),
    }
}

fn probe(threadbridge_exists: bool) -> WorkspaceSurfaceProbe {
    let missing = |path: &str| WorkspaceSurfaceProbeFile {
        path: path.to_owned(),
        exists: false,
        summary: None,
    };
    WorkspaceSurfaceProbe {
        canonical_workspace_cwd: "/work".to_owned(),
        threadbridge_exists,
        bin_exists: false,
        state_exists: false,
        tool_requests_exists: false,
        tool_results_exists: false,
        workspace_config: missing("/work/a"),
        app_server_current: missing("/work/b"),
        runtime_observer_current: missing("/work/c"),
        runtime_observer_events: missing("/work/d"),
    }
}

fn preflight(active: Vec<(&str, Option<&str>)>, archived: Vec<&str>) -> WorkspaceAddPreflight {
    WorkspaceAddPreflight {
        probe: probe(true),
        active_threads: active
            .into_iter()
            .map(|(key, title)| WorkspaceBindingSummary {
                thread_key: key.to_owned(),
                title: title.map(str::to_owned),
            })
            .collect(),
        archived_threads: archived
            .into_iter()
            .map(|key| WorkspaceBindingSummary {
                thread_key: key.to_owned(),
                title: None,
            })
            .collect(),
    }
}

fn advance(run: ControlRun, events: Vec<ControlEvent>) -> ControlStep {
    let mut run = run;
    let mut last = ControlStep::ReadBinding;
    for event in events {
        let (next, step) = run.advance(event);
        run = next;
        last = step;
    }
    last
}

fn begin(request: RuntimeControlActionRequest) -> ControlRun {
    let (run, step) = ControlRun::begin("thread-1".to_owned(), request);
    assert!(matches!(step, ControlStep::FindThread));
    run
}

#[test]
fn workspace_surface_probe_reports_threadbridge_state_files() {
    let config = probe_json_file(
        "workspace-config.json".to_owned(),
        Some("{\n  \"execution_mode\": \"full_auto\"\n}\n"),
    );
    assert!(config.exists);
    assert_eq!(
        config.summary.as_deref(),
        Some("{ \"execution_mode\": \"full_auto\" }")
    );
    let events = probe_events_file("events.jsonl".to_owned(), Some("{\"event\":\"started\"}\n"));
    assert!(events.exists);
    assert_eq!(events.summary.as_deref(), Some("1 lines, 20 bytes"));
    assert!(!probe_json_file("gone".to_owned(), None).exists);
    assert!(!probe_events_file("gone".to_owned(), None).exists);
}

#[test]
fn long_files_are_cut_in_a_probe() {
    let long = "x".repeat(300);
    let file = probe_json_file("long".to_owned(), Some(&long));
    assert_eq!(file.summary, Some(format!("{}...", "x".repeat(220))));
}

#[test]
fn probe_is_rendered_line_by_line() {
    let text = probe(false).render_text();
    assert!(text.starts_with(
        "Workspace surface probe.\nworkspace: /work\n.threadbridge/: missing\n.threadbridge/bin/: missing\n"
    ));
    assert!(text.contains("runtime-observer/events.jsonl: missing\npath: /work/d\n"));
}

#[test]
fn preflight_blocks_active_workspace_bindings() {
    let preflight = preflight(vec![("key-1", Some("Active"))], vec![]);
    assert_eq!(preflight.active_threads.len(), 1);
    assert_eq!(
        preflight.blocking_reason().as_deref(),
        Some("blocked_by_active_binding: workspace `/work` is already bound to active thread(s): key-1 (Active)")
    );
    assert!(resolve_workspace_add(preflight, "/work").is_err());
}

#[test]
fn preflight_blocks_archived_workspace_bindings() {
    let preflight = preflight(vec![], vec!["key-2"]);
    assert_eq!(preflight.archived_threads.len(), 1);
    assert!(preflight
        .blocking_reason()
        .unwrap()
        .contains("blocked_by_archived_binding"));
}

#[test]
fn free_workspaces_are_added_under_their_own_name() {
    let free = preflight(vec![], vec![]);
    assert!(free.reset_required());
    assert_eq!(
        free.render_text(),
        "Workspace add preflight.\nworkspace: /work\nactive_bindings: none\narchived_bindings: none\nreset_required: yes\nreset_allowed: yes"
    );
    let resolution = resolve_workspace_add(free, "/home/me/project").unwrap();
    assert!(matches!(
        resolution,
        WorkspaceAddResolution::Create { suggested_title, .. } if suggested_title == "project"
    ));
    assert_eq!(workspace_thread_title("/"), "/");
}

#[test]
fn surface_paths_lie_below_the_workspace() {
    let paths = WorkspaceSurfacePaths::of("/work");
    assert_eq!(paths.threadbridge_dir, "/work/.threadbridge");
    assert_eq!(
        paths.runtime_observer_events,
        "/work/.threadbridge/state/runtime-observer/events.jsonl"
    );
}

#[test]
fn quoted_text_reads_back() {
    assert_eq!(shell_quote("it's"), "'it'\"'\"'s'");
    assert_eq!(apple_script_string("a\"b\\c"), "\"a\\\"b\\\\c\"");
    assert_eq!(
        terminal_script("ls"),
        "tell application \"Terminal\"\nactivate\ndo script \"ls\"\nend tell"
    );
}

#[test]
fn launch_commands_name_the_session() {
    let new = hcodex_launch_command("/w/hcodex", "key", ExecutionMode::FullAuto, None);
    assert!(new.starts_with("'/w/hcodex' --thread-key 'key' "));
    let resumed = hcodex_launch_command("/w/hcodex", "key", ExecutionMode::Yolo, Some("thr_a"));
    assert!(resumed.ends_with(" resume 'thr_a'"));
    let plan = LaunchPlan {
        workspace: "/w".to_owned(),
        thread_key: "key".to_owned(),
        execution_mode: ExecutionMode::FullAuto,
        session: LaunchSession::Resume(" thr_b ".to_owned()),
    };
    assert!(plan.command().starts_with("'/w/.threadbridge/bin/hcodex' "));
    assert!(plan.command().ends_with(" resume 'thr_b'"));
}

#[test]
fn one_workspace_has_one_active_thread() {
    let keys = vec!["key".to_owned(), "other".to_owned()];
    assert_eq!(
        bind_conflict("key", &keys, "/w").as_deref(),
        Some("Workspace bind failed: another active thread is already bound to `/w`.")
    );
    assert_eq!(bind_conflict("key", &vec!["key".to_owned()], "/w"), None);
}

#[test]
fn ownership_is_told_apart() {
    assert!(RuntimeOwnershipMode::DesktopOwner.runtime_is_owner_managed());
    assert!(!RuntimeOwnershipMode::SelfManaged.runtime_is_owner_managed());
}

#[test]
fn blank_sessions_are_no_targets() {
    assert_eq!(reconnect_target_thread_id(&binding(Some("thr_a"))), Some("thr_a"));
    assert_eq!(reconnect_target_thread_id(&binding(Some("  "))), None);
    assert_eq!(reconnect_target_thread_id(&binding(None)), None);
}

#[test]
fn fresh_sessions_are_started_and_logged() {
    let run = begin(RuntimeControlActionRequest::StartFreshSession);
    let (run, step) = run.advance(ControlEvent::ThreadFound(Some(binding(Some("thr_a")))));
    assert!(matches!(step, ControlStep::StartSession { workspace } if workspace == "/work"));
    let (run, step) = run.advance(ControlEvent::Done);
    assert!(matches!(step, ControlStep::Log { log: ControlLog::StartedFresh }));
    let (run, step) = run.advance(ControlEvent::Done);
    assert!(matches!(step, ControlStep::ReadBinding));
    let (_, step) = run.advance(ControlEvent::Binding(None));
    assert!(matches!(
        step,
        ControlStep::Finish { outcome: Ok(ControlOutcome::Started { binding: None }) }
    ));
}

#[test]
fn inactive_threads_are_refused() {
    let step = advance(
        begin(RuntimeControlActionRequest::StartFreshSession),
        vec![ControlEvent::ThreadMissing],
    );
    assert!(matches!(step, ControlStep::Finish { outcome: Err(ControlError::NotActive) }));
}

#[test]
fn failed_reconnects_break_the_binding() {
    let step = advance(
        begin(RuntimeControlActionRequest::RepairSessionBinding),
        vec![
            ControlEvent::ThreadFound(Some(binding(Some("thr_a")))),
            ControlEvent::Refused("gone".to_owned()),
        ],
    );
    assert!(matches!(step, ControlStep::MarkBroken { reason } if reason == "gone"));
}

fn state(run_status: RunStatus) -> ResolvedThreadState {
    ResolvedThreadState {
        lifecycle_status: LifecycleStatus::Active,
        binding_status: BindingStatus::Healthy,
        run_status,
        run_phase: WorkspaceStatusPhase::Idle,
    }
}

#[test]
fn running_turns_are_interrupted() {
    let run = begin(RuntimeControlActionRequest::InterruptRunningTurn);
    let (run, step) = run.advance(ControlEvent::ThreadFound(Some(binding(Some("thr_a")))));
    assert!(matches!(step, ControlStep::ResolveRun));
    let (run, step) = run.advance(ControlEvent::State(state(RunStatus::Running)));
    assert!(matches!(step, ControlStep::ReadBusy));
    let (run, step) = run.advance(ControlEvent::Busy(Some(busy(Some("turn-1")))));
    assert!(matches!(step, ControlStep::Interrupt { turn_id, .. } if turn_id == "turn-1"));
    let step = advance(run, vec![ControlEvent::Done, ControlEvent::Done, ControlEvent::Done]);
    assert!(matches!(
        step,
        ControlStep::Finish {
            outcome: Ok(ControlOutcome::Interrupted {
                state: InterruptRunningTurnState::Requested,
                ..
            })
        }
    ));
}

#[test]
fn idle_threads_have_no_turn_to_interrupt() {
    let found = || ControlEvent::ThreadFound(Some(binding(Some("thr_a"))));
    let step = advance(
        begin(RuntimeControlActionRequest::InterruptRunningTurn),
        vec![found(), ControlEvent::State(state(RunStatus::Idle))],
    );
    assert!(matches!(step, ControlStep::Finish { outcome: Err(ControlError::NoTurn) }));
    let step = advance(
        begin(RuntimeControlActionRequest::InterruptRunningTurn),
        vec![found(), ControlEvent::State(state(RunStatus::Running)), ControlEvent::Busy(Some(busy(None)))],
    );
    assert!(matches!(
        step,
        ControlStep::Finish { outcome: Err(ControlError::UnknownTurn(id)) } if id == "thr_a"
    ));
}

#[test]
fn launches_need_a_launcher() {
    let request = || RuntimeControlActionRequest::LaunchLocalSession {
        target: LaunchLocalSessionTarget::New,
        session_id: None,
    };
    let found = || ControlEvent::ThreadFound(Some(binding(Some("thr_a"))));
    let step = advance(
        begin(request()),
        vec![
            found(),
            ControlEvent::Launcher { mode: ExecutionMode::FullAuto, available: false },
        ],
    );
    assert!(matches!(
        step,
        ControlStep::Finish { outcome: Err(ControlError::LauncherUnavailable) }
    ));
    let step = advance(
        begin(request()),
        vec![
            found(),
            ControlEvent::Launcher { mode: ExecutionMode::Yolo, available: true },
        ],
    );
    assert!(matches!(step, ControlStep::Launch { plan } if plan.session == LaunchSession::New));
}

#[test]
fn resumed_launches_name_their_session() {
    let (_, step) = ControlRun::begin(
        "thread-1".to_owned(),
        RuntimeControlActionRequest::LaunchLocalSession {
            target: LaunchLocalSessionTarget::Resume,
            session_id: None,
        },
    );
    assert!(matches!(
        step,
        ControlStep::Finish { outcome: Err(ControlError::MissingResumeSession) }
    ));
    let step = advance(
        begin(RuntimeControlActionRequest::LaunchLocalSession {
            target: LaunchLocalSessionTarget::Resume,
            session_id: Some("thr_b".to_owned()),
        }),
        vec![
            ControlEvent::ThreadFound(Some(binding(Some("thr_a")))),
            ControlEvent::Launcher { mode: ExecutionMode::FullAuto, available: true },
        ],
    );
    assert!(matches!(
        step,
        ControlStep::Launch { plan } if plan.session == LaunchSession::Resume("thr_b".to_owned())
    ));
}

#[test]
fn collaboration_mode_changes_are_answered_in_kind() {
    let step = advance(
        begin(RuntimeControlActionRequest::SetThreadCollaborationMode {
            mode: CollaborationMode::Plan,
        }),
        vec![
            ControlEvent::ThreadFound(Some(binding(Some("thr_a")))),
            ControlEvent::Done,
            ControlEvent::Done,
        ],
    );
    assert!(matches!(
        step,
        ControlStep::Finish {
            outcome: Ok(ControlOutcome::CollaborationMode { mode: CollaborationMode::Plan })
        }
    ));
}

#[test]
fn unasked_events_end_an_action() {
    let (run, _) = begin(RuntimeControlActionRequest::StartFreshSession).advance(ControlEvent::Done);
    assert!(matches!(
        run.advance(ControlEvent::Done).1,
        ControlStep::Finish { outcome: Err(ControlError::OutOfTurn) }
    ));
}

#[test]
fn logs_name_the_action_and_its_origin() {
    assert_eq!(
        ControlLog::CollaborationModeChanged(CollaborationMode::Plan)
            .to_line("telegram collaboration_mode"),
        "Action `set_thread_collaboration_mode` changed collaboration mode to `plan` from telegram collaboration_mode."
    );
    assert_eq!(
        ControlLog::Revalidated.to_line("telegram"),
        "Codex session revalidated from telegram."
    );
    assert_eq!(
        ThreadLog::Restored { title: "T".to_owned(), message_thread_id: 9 }.to_line("desktop"),
        "Thread restored from desktop into Telegram thread \"T\" (message_thread_id 9)."
    );
    assert_eq!(
        ControlError::UnknownTurn("thr_a".to_owned()).to_text(),
        "A turn is running for session `thr_a`, but its turn id is unavailable, so it cannot be interrupted yet."
    );
}

#[test]
fn a_mode_is_set_only_for_a_thread_that_stays_active() {
    let set = || {
        begin(RuntimeControlActionRequest::SetWorkspaceExecutionMode {
            execution_mode: ExecutionMode::Yolo,
        })
    };
    let found = || ControlEvent::ThreadFound(Some(binding(Some("thr_a"))));
    let events = || {
        vec![
            found(),
            ControlEvent::Mode(ExecutionMode::FullAuto),
            ControlEvent::Done,
            found(),
            ControlEvent::Mode(ExecutionMode::Yolo),
        ]
    };
    assert!(matches!(advance(set(), events()), ControlStep::FindThread));
    let mut gone = events();
    gone.push(ControlEvent::ThreadMissing);
    assert!(matches!(
        advance(set(), gone),
        ControlStep::Finish { outcome: Err(ControlError::NotActive) }
    ));
    let mut kept = events();
    kept.push(found());
    assert!(matches!(
        advance(set(), kept),
        ControlStep::Log { log: ControlLog::ExecutionModeChanged(ExecutionMode::Yolo) }
    ));
    let mut kept = events();
    kept.push(found());
    kept.push(ControlEvent::Done);
    assert!(matches!(
        advance(set(), kept),
        ControlStep::Finish {
            outcome: Ok(ControlOutcome::ExecutionMode { mode: ExecutionMode::Yolo, .. })
        }
    ));
}
