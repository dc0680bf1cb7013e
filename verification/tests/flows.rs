use std::fmt::Debug;

use threadbridge::collaboration_mode::CollaborationMode;
use threadbridge::execution_mode::{ExecutionMode, SessionExecutionSnapshot};
use threadbridge::repository::SessionBinding;
use threadbridge::runtime_control::{
    WorkspaceAddPreflight, WorkspaceBindingSummary, WorkspaceSurfaceProbe,
    WorkspaceSurfaceProbeFile,
};
use threadbridge::runtime_protocol::RuntimeControlActionResult;
use threadbridge::telegram_runtime::command_flow::{
    advance_command, begin_command, generated_title, CommandError, CommandEvent, CommandInput,
    CommandNotice, CommandStep,
};
use threadbridge::telegram_runtime::commands::{command_argument_text, Command, CommandParseError};
use threadbridge::telegram_runtime::image_batches::{
    advance_analysis, advance_batch_message, advance_image_turn, advance_queue, analysis_artifact,
    analysis_input, begin_analysis, begin_batch_message, begin_image_turn, begin_queue,
    AnalysisEvent, AnalysisRequest, AnalysisStep, BatchFacts, BatchMessageEvent, CodexInputItem,
    ImageTurnEvent, ImageTurnStep, PendingImage, PendingImageBatch, QueueEvent, QueueStep,
};
use threadbridge::telegram_runtime::deliveries::{delivery_report, DeliverySource};
use threadbridge::telegram_runtime::text_flow::{
    advance_plan, advance_prompt, advance_turn, begin_plan, begin_prompt, begin_turn, failed_turn,
    PlanError, PlanEvent, PlanStep, PromptEvent, PromptNotice,
    PromptStep, TurnError, TurnEvent, TurnOutcome, TurnStep, TurnWarning,
};
use threadbridge::telegram_runtime::{
    is_authorized, is_control_chat, route_message, FlowError, MessageRoute, SessionId, ThreadFacts,
    TurnTarget,
};
use threadbridge::thread_state::{
    BindingStatus, LifecycleStatus, ResolvedThreadState, RunStatus,
};
use threadbridge::workspace_status::{
    SessionActivitySource, SessionCurrentStatus, WorkspaceStatusPhase,
};

fn name<T: Debug>(step: &T) -> String {
    let text = format!("{step:?}");
    text.split(|c: char| !c.is_alphanumeric()).next().unwrap_or("").to_owned()
}

fn binding() -> SessionBinding {
    SessionBinding::fresh(
        Some("/work".to_owned()),
        Some("thr_a".to_owned()),
        SessionExecutionSnapshot::from_mode(ExecutionMode::FullAuto),
    )
}

fn busy() -> SessionCurrentStatus {
    SessionCurrentStatus {
        schema_version: 2,
        workspace_cwd: "/work".to_owned(),
        session_id: "thr_a".to_owned(),
        activity_source: SessionActivitySource::ManagedRuntime,
        live: true,
        phase: WorkspaceStatusPhase::TurnRunning,
        shell_pid: None,
        child_pid: None,
        child_pgid: None,
        child_command: None,
        client: None,
        turn_id: Some("turn-1".to_owned()),
        summary: None,
        pending_interrupt_turn_id: None,
        pending_interrupt_requested_at: None,
        observer_attach_mode: None,
        updated_at: "2026-03-27T00:00:00.000Z".to_owned(),
    }
}

fn state(lifecycle: LifecycleStatus, binding: BindingStatus) -> ResolvedThreadState {
    ResolvedThreadState {
        lifecycle_status: lifecycle,
        binding_status: binding,
        run_status: RunStatus::Idle,
        run_phase: WorkspaceStatusPhase::Idle,
    }
}

fn usable(busy: Option<SessionCurrentStatus>) -> ThreadFacts {
    ThreadFacts {
        state: state(LifecycleStatus::Active, BindingStatus::Healthy),
        session: Some(binding()),
        busy,
    }
}

/// What a turn of a usable thread continues. Its session is kept with blanks around it.
fn target() -> TurnTarget {
    TurnTarget {
        session_id: SessionId { stored: " thr_a\n".to_owned() },
        workspace: "/work".to_owned(),
    }
}

fn is_target(target: &TurnTarget) -> bool {
    target.session_id.as_str() == "thr_a" && target.workspace == "/work"
}

/// A usable thread whose binding keeps its session with blanks around it.
fn padded() -> ThreadFacts {
    let mut facts = usable(None);
    if let Some(session) = &mut facts.session {
        session.current_codex_thread_id = Some(" thr_a\n".to_owned());
    }
    facts
}

/// A usable thread whose binding names no workspace.
fn homeless() -> ThreadFacts {
    let mut facts = usable(None);
    if let Some(session) = &mut facts.session {
        session.workspace_cwd = None;
    }
    facts
}

fn execution() -> SessionExecutionSnapshot {
    SessionExecutionSnapshot::from_mode(ExecutionMode::Yolo)
}

fn image(name: &str) -> PendingImage {
    PendingImage {
        caption: None,
        file_name: name.to_owned(),
        mime_type: "image/png".to_owned(),
        relative_path: format!("images/{name}"),
        source_message_id: 1,
    }
}

fn archived() -> ThreadFacts {
    ThreadFacts {
        state: state(LifecycleStatus::Archived, BindingStatus::Healthy),
        session: Some(binding()),
        busy: None,
    }
}

fn broken() -> ThreadFacts {
    ThreadFacts {
        state: state(LifecycleStatus::Active, BindingStatus::Broken),
        session: Some(binding()),
        busy: None,
    }
}

fn preflight(active: Vec<&str>) -> WorkspaceAddPreflight {
    let file = || WorkspaceSurfaceProbeFile {
        path: "/work/f".to_owned(),
        exists: false,
        summary: None,
    };
    WorkspaceAddPreflight {
        probe: WorkspaceSurfaceProbe {
            canonical_workspace_cwd: "/work".to_owned(),
            threadbridge_exists: false,
            bin_exists: false,
            state_exists: false,
            tool_requests_exists: false,
            tool_results_exists: false,
            workspace_config: file(),
            app_server_current: file(),
            runtime_observer_current: file(),
            runtime_observer_events: file(),
        },
        active_threads: active
            .into_iter()
            .map(|key| WorkspaceBindingSummary {
                thread_key: key.to_owned(),
                title: None,
            })
            .collect(),
        archived_threads: Vec::new(),
    }
}

fn run_command(input: CommandInput, events: Vec<CommandEvent>) -> (Vec<String>, CommandStep) {
    let (mut stage, mut step) = begin_command(input);
    let mut names = vec![name(&step)];
    for event in events {
        (stage, step) = advance_command(stage, event);
        names.push(name(&step));
    }
    (names, step)
}

fn run_turn(mode: CollaborationMode, events: Vec<TurnEvent>) -> (Vec<String>, TurnStep) {
    let (mut stage, mut step) = begin_turn(mode, target());
    let mut names = vec![name(&step)];
    for event in events {
        (stage, step) = advance_turn(stage, event);
        names.push(name(&step));
    }
    (names, step)
}

fn run_prompt(events: Vec<PromptEvent>) -> (Vec<String>, PromptStep) {
    let (mut stage, mut step) = begin_prompt(false, true);
    let mut names = vec![name(&step)];
    for event in events {
        (stage, step) = advance_prompt(stage, event);
        names.push(name(&step));
    }
    (names, step)
}

fn run_image_turn(events: Vec<ImageTurnEvent>) -> (Vec<String>, ImageTurnStep) {
    let (mut stage, mut step) = begin_image_turn(target());
    let mut names = vec![name(&step)];
    for event in events {
        (stage, step) = advance_image_turn(stage, event);
        names.push(name(&step));
    }
    (names, step)
}

#[test]
fn workspaces_are_added_step_by_step() {
    let input = CommandInput::read(
        Command::AddWorkspace,
        Some("/add_workspace /work"),
        true,
        false,
    );
    assert_eq!(input.argument.as_deref(), Some("/work"));
    let (names, step) = run_command(
        input,
        vec![
            CommandEvent::Path("/work".to_owned()),
            CommandEvent::Preflight(preflight(vec![])),
            CommandEvent::Done,
            CommandEvent::Done,
            CommandEvent::Reset { performed: false },
            CommandEvent::Bound { thread_key: "key".to_owned() },
            CommandEvent::Done,
            CommandEvent::Done,
        ],
    );
    assert_eq!(
        names,
        vec![
            "ResolvePath",
            "Preflight",
            "CreateTopic",
            "CreateThread",
            "ResetSurface",
            "BindWorkspace",
            "NotifyBound",
            "Reply",
            "Finish",
        ]
    );
    assert!(matches!(step, CommandStep::Finish { outcome: Ok(()) }));
}

#[test]
fn bound_workspaces_are_not_added_again() {
    let input = CommandInput::read(Command::AddWorkspace, Some("/add_workspace /work"), true, false);
    let (_, step) = run_command(
        input,
        vec![
            CommandEvent::Path("/work".to_owned()),
            CommandEvent::Preflight(preflight(vec!["other"])),
        ],
    );
    let CommandStep::Reply { notice } = step else {
        panic!("expected a reply");
    };
    assert!(matches!(notice, CommandNotice::AddBlocked { .. }));
    assert!(!notice.is_warning());
    assert!(notice.to_text().contains("blocked_by_active_binding"));
}

#[test]
fn failed_additions_are_undone() {
    let input = CommandInput::read(Command::AddWorkspace, Some("/add_workspace /work"), true, false);
    let (names, step) = run_command(
        input,
        vec![
            CommandEvent::Path("/work".to_owned()),
            CommandEvent::Preflight(preflight(vec![])),
            CommandEvent::Done,
            CommandEvent::Done,
            CommandEvent::Reset { performed: true },
            CommandEvent::Failed("no".to_owned()),
            CommandEvent::Failed("topic".to_owned()),
            CommandEvent::Done,
        ],
    );
    assert_eq!(&names[6..], ["DeleteTopic", "Archive", "Finish"]);
    assert!(matches!(
        step,
        CommandStep::Finish { outcome: Err(CommandError::Outside(reason)) } if reason == "no"
    ));
}

#[test]
fn misplaced_commands_do_nothing() {
    let input = CommandInput::read(Command::AddWorkspace, Some("/add_workspace /w"), false, true);
    let (_, step) = run_command(input, vec![]);
    assert!(matches!(
        step,
        CommandStep::Reply {
            notice: CommandNotice::WrongPlace { command: Command::AddWorkspace }
        }
    ));
    let input = CommandInput::read(Command::Stop, Some("/stop"), false, false);
    let (_, step) = run_command(input, vec![]);
    assert!(matches!(
        step,
        CommandStep::Finish { outcome: Err(CommandError::MissingThreadId) }
    ));
}

#[test]
fn busy_threads_keep_their_session() {
    let input = || CommandInput::read(Command::NewSession, Some("/new_session"), false, true);
    let (_, step) = run_command(input(), vec![CommandEvent::Thread(usable(Some(busy())))]);
    assert!(matches!(step, CommandStep::Reply { notice: CommandNotice::Busy { .. } }));
    let (_, step) = run_command(input(), vec![CommandEvent::Thread(archived())]);
    assert!(matches!(step, CommandStep::Reply { notice: CommandNotice::Archived }));
    let (names, _) = run_command(
        input(),
        vec![
            CommandEvent::Thread(usable(None)),
            CommandEvent::Controlled(RuntimeControlActionResult::StartFreshSession {
                thread_key: "key".to_owned(),
                current_codex_thread_id: Some("thr_b".to_owned()),
            }),
            CommandEvent::Done,
            CommandEvent::Failed("title".to_owned()),
        ],
    );
    assert_eq!(names, vec!["LoadThread", "RunControl", "Reply", "Retitle", "Finish"]);
}

#[test]
fn failed_renames_mark_the_binding() {
    let input = CommandInput::read(Command::RenameWorkspace, Some("/rename_workspace"), false, true);
    let (names, _) = run_command(
        input,
        vec![
            CommandEvent::Thread(usable(None)),
            CommandEvent::Done,
            CommandEvent::Done,
            CommandEvent::Done,
            CommandEvent::Failed("gone".to_owned()),
            CommandEvent::Failed("status".to_owned()),
            CommandEvent::Done,
        ],
    );
    assert_eq!(
        names,
        vec![
            "LoadThread",
            "PrepareRuntime",
            "OpenWorkspace",
            "RecordStart",
            "GenerateTitle",
            "RecordFailure",
            "MarkBroken",
            "Reply",
        ]
    );
}

#[test]
fn the_usable_session_is_asked_for_a_title() {
    let input = || {
        CommandInput::read(Command::RenameWorkspace, Some("/rename_workspace"), false, true)
    };
    let (mut stage, _) = begin_command(input());
    let mut asked: Vec<String> = Vec::new();
    for event in [
        CommandEvent::Thread(padded()),
        CommandEvent::Done,
        CommandEvent::Done,
        CommandEvent::Done,
        CommandEvent::Title("New".to_owned()),
        CommandEvent::Done,
    ] {
        let (next, step) = advance_command(stage, event);
        stage = next;
        match &step {
            CommandStep::RecordStart { target }
            | CommandStep::GenerateTitle { target }
            | CommandStep::RecordEnd { target, .. } => {
                assert!(is_target(target));
                asked.push(name(&step));
            }
            _ => {}
        }
    }
    assert_eq!(asked, ["RecordStart", "GenerateTitle", "RecordEnd"]);
    let (_, step) = run_command(input(), vec![CommandEvent::Thread(homeless())]);
    assert!(matches!(
        step,
        CommandStep::Finish { outcome: Err(CommandError::MissingWorkspace) }
    ));
}

#[test]
fn mode_changes_are_compared_with_what_was_asked() {
    let input = CommandInput::read(Command::PlanMode, Some("/plan_mode"), false, true);
    let (_, step) = run_command(
        input,
        vec![
            CommandEvent::Done,
            CommandEvent::Controlled(RuntimeControlActionResult::SetThreadCollaborationMode {
                thread_key: "key".to_owned(),
                mode: CollaborationMode::Default,
            }),
        ],
    );
    assert!(matches!(
        step,
        CommandStep::Finish {
            outcome: Err(CommandError::WrongMode {
                returned: CollaborationMode::Default,
                wanted: CollaborationMode::Plan,
            })
        }
    ));
}

#[test]
fn other_results_are_errors() {
    let input = CommandInput::read(Command::RepairSession, Some("/repair_session"), false, true);
    let (_, step) = run_command(
        input,
        vec![
            CommandEvent::Thread(usable(None)),
            CommandEvent::Controlled(RuntimeControlActionResult::StartFreshSession {
                thread_key: "key".to_owned(),
                current_codex_thread_id: None,
            }),
        ],
    );
    let CommandStep::Finish { outcome: Err(error) } = step else {
        panic!("expected an error");
    };
    assert!(matches!(error, CommandError::UnexpectedResult { .. }));
    assert!(!error.to_text().is_empty());
}

#[test]
fn commands_are_for_one_bot() {
    assert_eq!(
        Command::parse("/stop@other", "mine"),
        Err(CommandParseError::WrongBotName("other".to_owned()))
    );
    assert_eq!(Command::parse("/stop@mine", "mine"), Ok(Command::Stop));
    assert_eq!(
        Command::parse("/nothing", "mine"),
        Err(CommandParseError::UnknownCommand("/nothing".to_owned()))
    );
    assert_eq!(
        command_argument_text(Some("/add_workspace  /a b "), "add_workspace").as_deref(),
        Some("/a b")
    );
    assert_eq!(generated_title("  My title\n"), "My title");
}

#[test]
fn prompts_start_turns_in_idle_threads() {
    let (names, step) = run_prompt(vec![
        PromptEvent::Done,
        PromptEvent::Submitted(None),
        PromptEvent::Thread(usable(None)),
        PromptEvent::Done,
        PromptEvent::Batch(None),
        PromptEvent::Done,
        PromptEvent::Done,
        PromptEvent::Done,
        PromptEvent::Failed("bus".to_owned()),
        PromptEvent::Done,
        PromptEvent::Done,
    ]);
    assert_eq!(
        names,
        vec![
            "LoadRecord",
            "Submit",
            "Route",
            "PrepareRuntime",
            "ReadBatch",
            "LogPrompt",
            "MirrorPrompt",
            "ClaimEcho",
            "CommitEcho",
            "RecordStart",
            "StartTurn",
            "Finish",
        ]
    );
    assert!(matches!(step, PromptStep::Finish { outcome: Ok(()) }));
}

#[test]
fn prompts_continue_the_session_that_they_were_routed_to() {
    let mut stage_and_step = begin_prompt(false, true);
    let mut facts = padded();
    if let Some(session) = &mut facts.session {
        session.current_collaboration_mode = Some(CollaborationMode::Plan);
    }
    let mut handed: Vec<String> = Vec::new();
    for event in [
        PromptEvent::Done,
        PromptEvent::Submitted(None),
        PromptEvent::Thread(facts),
        PromptEvent::Done,
        PromptEvent::Batch(None),
        PromptEvent::Done,
        PromptEvent::Done,
        PromptEvent::Done,
        PromptEvent::Done,
        PromptEvent::Done,
    ] {
        stage_and_step = advance_prompt(stage_and_step.0, event);
        match &stage_and_step.1 {
            PromptStep::PrepareRuntime { workspace } => handed.push(workspace.clone()),
            PromptStep::MirrorPrompt { session_id } | PromptStep::ClaimEcho { session_id } => {
                handed.push(session_id.as_str().to_owned())
            }
            PromptStep::RecordStart { target } => {
                assert!(is_target(target));
                handed.push("recorded".to_owned());
            }
            PromptStep::StartTurn { mode, target } => {
                assert!(is_target(target));
                assert_eq!(*mode, CollaborationMode::Plan);
                handed.push("started".to_owned());
            }
            _ => {}
        }
    }
    assert_eq!(handed, ["/work", "thr_a", "thr_a", "recorded", "started"]);
    let (_, step) = run_prompt(vec![
        PromptEvent::Done,
        PromptEvent::Submitted(None),
        PromptEvent::Thread(homeless()),
    ]);
    let PromptStep::Finish { outcome: Err(error) } = step else {
        panic!("expected an end");
    };
    assert_eq!(error, FlowError::MissingWorkspace);
    assert_eq!(error.to_text(), "session binding is missing workspace_cwd");
}

#[test]
fn turns_run_in_the_mode_of_their_workspace() {
    let (_, step) = run_turn(CollaborationMode::Plan, vec![TurnEvent::Done]);
    assert!(matches!(step, TurnStep::ReadMode { workspace } if workspace == "/work"));
    for read in [ExecutionMode::FullAuto, ExecutionMode::Yolo] {
        let (_, step) =
            run_turn(CollaborationMode::Plan, vec![TurnEvent::Done, TurnEvent::Mode(read)]);
        assert!(matches!(
            step,
            TurnStep::Run { mode: CollaborationMode::Plan, execution, target }
                if execution == read && is_target(&target)
        ));
        let (_, step) =
            run_image_turn(vec![ImageTurnEvent::Done, ImageTurnEvent::Mode(read)]);
        assert!(matches!(
            step,
            ImageTurnStep::Run { execution, target } if execution == read && is_target(&target)
        ));
    }
    let (_, step) = run_turn(CollaborationMode::Plan, vec![TurnEvent::Done, TurnEvent::Done]);
    assert!(matches!(step, TurnStep::Finish { outcome: Err(TurnError::OutOfTurn) }));
    let (_, step) = run_turn(
        CollaborationMode::Plan,
        vec![TurnEvent::Done, TurnEvent::Failed("unreadable".to_owned())],
    );
    assert!(matches!(step, TurnStep::Finish { outcome: Err(TurnError::ModeUnknown) }));
}

#[test]
fn reported_permissions_are_kept() {
    let outcomes = [
        TurnOutcome::Interrupted { turn_id: None, execution: execution() },
        TurnOutcome::Ended { turn_id: None, execution: execution(), reply: None, has_plan: false },
    ];
    for outcome in outcomes {
        let (_, step) = run_turn(
            CollaborationMode::Default,
            vec![
                TurnEvent::Done,
                TurnEvent::Mode(ExecutionMode::FullAuto),
                TurnEvent::Ran(outcome),
                TurnEvent::Done,
                TurnEvent::Done,
                TurnEvent::Done,
            ],
        );
        assert!(matches!(step, TurnStep::UpdateExecution { execution: kept } if kept == execution()));
    }
    let (_, step) = run_image_turn(vec![
        ImageTurnEvent::Done,
        ImageTurnEvent::Mode(ExecutionMode::FullAuto),
        ImageTurnEvent::Ended { execution: execution(), reply: None },
        ImageTurnEvent::Done,
        ImageTurnEvent::Done,
    ]);
    assert!(matches!(
        step,
        ImageTurnStep::UpdateExecution { execution: kept } if kept == execution()
    ));
}

#[test]
fn prompts_wait_for_running_turns() {
    let (_, step) = run_prompt(vec![
        PromptEvent::Done,
        PromptEvent::Submitted(None),
        PromptEvent::Thread(usable(Some(busy()))),
        PromptEvent::Done,
    ]);
    assert!(matches!(step, PromptStep::Reply { notice: PromptNotice::Busy { .. } }));
    let (_, step) = run_prompt(vec![
        PromptEvent::Done,
        PromptEvent::Submitted(None),
        PromptEvent::Thread(broken()),
    ]);
    let PromptStep::Reply { notice } = step else {
        panic!("expected a reply");
    };
    assert!(notice.to_text().contains("/repair_session"));
    assert!(matches!(begin_prompt(true, true).1, PromptStep::Reply { .. }));
    assert!(matches!(
        begin_prompt(false, false).1,
        PromptStep::Finish { outcome: Err(FlowError::MissingThreadId) }
    ));
}

#[test]
fn prompts_for_images_start_their_analysis() {
    let (names, _) = run_prompt(vec![
        PromptEvent::Done,
        PromptEvent::Submitted(None),
        PromptEvent::Thread(usable(None)),
        PromptEvent::Done,
        PromptEvent::Batch(Some(BatchFacts { batch_id: "b".to_owned(), images: 2 })),
        PromptEvent::Done,
        PromptEvent::Done,
    ]);
    assert_eq!(&names[5..], ["LogPrompt", "AnalyzeBatch", "Finish"]);
}

#[test]
fn replies_are_delivered_once() {
    let ended = || {
        TurnEvent::Ran(TurnOutcome::Ended {
            turn_id: Some("turn-1".to_owned()),
            execution: execution(),
            reply: Some("done".to_owned()),
            has_plan: true,
        })
    };
    let (names, _) = run_turn(
        CollaborationMode::Plan,
        vec![
            TurnEvent::Done,
            TurnEvent::Mode(ExecutionMode::FullAuto),
            ended(),
            TurnEvent::Done,
            TurnEvent::Done,
            TurnEvent::Done,
            TurnEvent::Done,
            TurnEvent::Done,
            TurnEvent::Done,
            TurnEvent::Claimed { claimed: true },
            TurnEvent::Completed { finalized: false },
            TurnEvent::Done,
            TurnEvent::Done,
            TurnEvent::Claimed { claimed: true },
            TurnEvent::Done,
            TurnEvent::Done,
            TurnEvent::Done,
        ],
    );
    assert_eq!(
        names,
        vec![
            "OpenWorkspace",
            "ReadMode",
            "Run",
            "StopHeartbeats",
            "RecordEnd",
            "MarkVerified",
            "UpdateExecution",
            "LogReply",
            "MirrorReply",
            "ClaimReply",
            "CompletePreview",
            "SendReply",
            "CommitReply",
            "ClaimPlanPrompt",
            "SendPlanPrompt",
            "CommitPlanPrompt",
            "DispatchOutbox",
            "Finish",
        ]
    );
}

#[test]
fn turns_hand_their_id_on() {
    let events = || {
        vec![
            TurnEvent::Done,
            TurnEvent::Mode(ExecutionMode::FullAuto),
            TurnEvent::Ran(TurnOutcome::Ended {
                turn_id: Some("turn-1".to_owned()),
                execution: execution(),
                reply: Some("done".to_owned()),
                has_plan: true,
            }),
            TurnEvent::Done,
            TurnEvent::Done,
            TurnEvent::Done,
            TurnEvent::Done,
            TurnEvent::Done,
        ]
    };
    let (_, step) = run_turn(CollaborationMode::Plan, events());
    assert!(matches!(
        step,
        TurnStep::MirrorReply { session_id, reply }
            if session_id.as_str() == "thr_a"
                && reply.turn_id.as_deref() == Some("turn-1")
                && reply.text == "done"
    ));
    let mut more = events();
    more.push(TurnEvent::Done);
    let (_, step) = run_turn(CollaborationMode::Plan, more);
    let TurnStep::ClaimReply { session_id, reply } = step else {
        panic!("expected a claim");
    };
    assert_eq!(session_id.as_str(), "thr_a");
    assert_eq!(reply.turn_id.as_deref(), Some("turn-1"));
    let mut more = events();
    more.push(TurnEvent::Done);
    more.push(TurnEvent::Claimed { claimed: true });
    more.push(TurnEvent::Completed { finalized: true });
    let (_, step) = run_turn(CollaborationMode::Plan, more);
    assert!(matches!(step, TurnStep::CommitReply { preview_completed: true }));
    let mut more = events();
    more.push(TurnEvent::Done);
    more.push(TurnEvent::Claimed { claimed: false });
    more.push(TurnEvent::Completed { finalized: false });
    let (_, step) = run_turn(CollaborationMode::Plan, more);
    assert!(matches!(
        step,
        TurnStep::ClaimPlanPrompt { session_id, question }
            if session_id.as_str() == "thr_a"
                && question.turn_id.as_deref() == Some("turn-1")
                && question.reply.as_deref() == Some("done")
    ));
    let (_, step) = run_turn(
        CollaborationMode::Default,
        vec![
            TurnEvent::Done,
            TurnEvent::Mode(ExecutionMode::FullAuto),
            TurnEvent::Ran(TurnOutcome::Interrupted {
                turn_id: Some("turn-2".to_owned()),
                execution: execution(),
            }),
            TurnEvent::Done,
        ],
    );
    assert!(matches!(
        step,
        TurnStep::RecordInterrupt { target, turn_id }
            if is_target(&target) && turn_id.as_deref() == Some("turn-2")
    ));
}

#[test]
fn turns_that_could_not_run_say_why() {
    let outcome = failed_turn("thr_a", "/work", "mode:");
    assert!(matches!(
        outcome,
        TurnOutcome::Failed { reason, harmless: false }
            if reason == "failed to run codex turn for thread thr_a in /work"
    ));
    assert!(matches!(
        failed_turn("thr_a", "/work", "failed to run"),
        TurnOutcome::Failed { harmless: true, .. }
    ));
}

#[test]
fn plan_prompts_need_a_plan() {
    let (names, _) = run_turn(
        CollaborationMode::Default,
        vec![
            TurnEvent::Done,
            TurnEvent::Mode(ExecutionMode::FullAuto),
            TurnEvent::Ran(TurnOutcome::Ended {
                turn_id: None,
                execution: execution(),
                reply: None,
                has_plan: true,
            }),
            TurnEvent::Done,
            TurnEvent::Done,
            TurnEvent::Done,
            TurnEvent::Done,
        ],
    );
    assert_eq!(names.last().map(String::as_str), Some("DispatchOutbox"));
}

#[test]
fn failed_turns_break_the_session() {
    let failed = |harmless| {
        TurnEvent::Ran(TurnOutcome::Failed { reason: "boom".to_owned(), harmless })
    };
    let (names, _) = run_turn(
        CollaborationMode::Default,
        vec![
            TurnEvent::Done,
            TurnEvent::Mode(ExecutionMode::FullAuto),
            failed(false),
            TurnEvent::Done,
            TurnEvent::Failed("status".to_owned()),
            TurnEvent::Done,
            TurnEvent::Done,
            TurnEvent::Done,
            TurnEvent::Failed("title".to_owned()),
        ],
    );
    assert_eq!(
        &names[4..],
        ["RecordFailure", "MarkBroken", "LogFailure", "Warn", "Retitle", "Finish"]
    );
    let (_, step) = run_turn(
        CollaborationMode::Default,
        vec![
            TurnEvent::Done,
            TurnEvent::Mode(ExecutionMode::FullAuto),
            failed(true),
            TurnEvent::Done,
            TurnEvent::Done,
        ],
    );
    let TurnStep::Warn { warning } = step else {
        panic!("expected a warning");
    };
    assert!(matches!(&warning, TurnWarning::ModeUnavailable { reason } if reason == "boom"));
    assert!(warning.to_text().contains("boom"));
    let (_, step) = run_turn(CollaborationMode::Default, vec![TurnEvent::Failed("x".to_owned())]);
    assert!(matches!(
        step,
        TurnStep::Finish { outcome: Err(TurnError::WorkspaceUnavailable) }
    ));
}

#[test]
fn interrupted_turns_keep_the_session() {
    let (names, _) = run_turn(
        CollaborationMode::Default,
        vec![
            TurnEvent::Done,
            TurnEvent::Mode(ExecutionMode::FullAuto),
            TurnEvent::Ran(TurnOutcome::Interrupted {
                turn_id: Some("turn-1".to_owned()),
                execution: execution(),
            }),
            TurnEvent::Done,
            TurnEvent::Done,
            TurnEvent::Done,
            TurnEvent::Done,
            TurnEvent::Done,
        ],
    );
    assert_eq!(
        &names[4..],
        ["RecordInterrupt", "MarkVerified", "UpdateExecution", "LogInterrupt", "Finish"]
    );
}

#[test]
fn plans_run_in_default_mode() {
    let (mut stage, mut step) = begin_plan(true);
    let mut names = vec![name(&step)];
    let mut events = vec![PlanEvent::Thread(padded())];
    for _ in 0..8 {
        events.push(PlanEvent::Done);
    }
    for event in events {
        (stage, step) = advance_plan(stage, event);
        if let PlanStep::StartTurn { mode, target } = &step {
            assert_eq!(*mode, CollaborationMode::Default);
            assert!(is_target(target));
        }
        names.push(name(&step));
    }
    assert_eq!(
        names,
        vec![
            "Route",
            "PrepareRuntime",
            "SetDefaultMode",
            "LogPrompt",
            "MirrorPrompt",
            "ClaimEcho",
            "CommitEcho",
            "RecordStart",
            "StartTurn",
            "Finish",
        ]
    );
    let (stage, _) = begin_plan(true);
    let (_, step) = advance_plan(stage, PlanEvent::Thread(usable(Some(busy()))));
    assert!(matches!(step, PlanStep::Finish { outcome: Err(PlanError::Busy { .. }) }));
    let (stage, _) = begin_plan(true);
    let (_, step) = advance_plan(stage, PlanEvent::Thread(archived()));
    assert!(matches!(step, PlanStep::Finish { outcome: Err(PlanError::Archived) }));
    let (stage, _) = begin_plan(true);
    let (_, step) = advance_plan(stage, PlanEvent::Thread(broken()));
    assert!(matches!(step, PlanStep::Finish { outcome: Err(PlanError::Unusable) }));
    let (stage, _) = begin_plan(true);
    let (_, step) = advance_plan(stage, PlanEvent::Thread(homeless()));
    let PlanStep::Finish { outcome: Err(error) } = step else {
        panic!("expected an end");
    };
    assert!(matches!(error, PlanError::MissingWorkspace));
    assert_eq!(error.to_text(), "session binding is missing workspace_cwd");
    assert!(matches!(
        begin_plan(false).1,
        PlanStep::Finish { outcome: Err(PlanError::MissingThreadId) }
    ));
}

#[test]
fn deliveries_name_their_place() {
    let report = delivery_report(DeliverySource::Message { message_id: 5 }, 42, 7);
    assert_eq!(report.target_ref.as_deref(), Some("chat:42/thread:7"));
    assert_eq!(report.transport_ref.as_deref(), Some("message:5"));
    assert_eq!((report.preview_completed, report.line_no), (None, None));
}

#[test]
fn images_need_a_usable_thread() {
    let (stage, _) = begin_queue(true);
    let (_, step) = advance_queue(stage, QueueEvent::Thread(archived()));
    assert!(matches!(step, QueueStep::Reply { .. }));
    let (stage, _) = begin_queue(true);
    let (mut stage, mut step) = advance_queue(stage, QueueEvent::Thread(usable(None)));
    let mut names = vec![name(&step)];
    for event in [
        QueueEvent::Done,
        QueueEvent::Done,
        QueueEvent::Done,
        QueueEvent::Done,
        QueueEvent::Shown { shown: true, images: 2 },
        QueueEvent::Done,
        QueueEvent::Done,
    ] {
        (stage, step) = advance_queue(stage, event);
        names.push(name(&step));
    }
    assert_eq!(
        names,
        vec![
            "PrepareRuntime",
            "OpenBatch",
            "Download",
            "Append",
            "ShowBatch",
            "LogImage",
            "LogBatch",
            "Finish",
        ]
    );
    let (stage, _) = begin_queue(true);
    let (_, step) = advance_queue(stage, QueueEvent::Thread(homeless()));
    assert!(matches!(step, QueueStep::Finish { outcome: Err(FlowError::MissingWorkspace) }));
    assert!(matches!(
        begin_queue(false).1,
        QueueStep::Finish { outcome: Err(FlowError::MissingThreadId) }
    ));
}

#[test]
fn batch_messages_are_sent_anew_where_they_cannot_be_edited() {
    let (stage, step) = begin_batch_message(Some(3));
    assert_eq!(name(&step), "Edit");
    let (stage, step) = advance_batch_message(stage, BatchMessageEvent::Failed("old".to_owned()));
    assert_eq!(name(&step), "Send");
    let (_, step) = advance_batch_message(stage, BatchMessageEvent::Sent { message_id: 4 });
    assert_eq!(name(&step), "Record");
}

#[test]
fn only_the_asked_batch_is_analysed() {
    let request = || AnalysisRequest { batch_id: "b".to_owned(), by_button: true };
    let run = |batch: Option<PendingImageBatch>| {
        let (stage, _) = begin_analysis(request());
        let (stage, _) = advance_analysis(stage, AnalysisEvent::Thread(usable(None)));
        let (stage, _) = advance_analysis(stage, AnalysisEvent::Thread(padded()));
        let (stage, step) = advance_analysis(stage, AnalysisEvent::Done);
        assert_eq!(name(&step), "ReadBatch");
        advance_analysis(stage, AnalysisEvent::Batch(batch))
    };
    let batch = |batch_id: &str, images: Vec<PendingImage>| PendingImageBatch {
        batch_id: batch_id.to_owned(),
        control_message_id: None,
        images,
    };
    let ended = |step: AnalysisStep| matches!(step, AnalysisStep::Finish { outcome: Ok(()) });
    assert!(ended(run(Some(batch("other", vec![image("a.png")]))).1));
    assert!(ended(run(Some(batch("b", Vec::new()))).1));
    assert!(ended(run(None).1));
    let (stage, step) = run(Some(batch("b", vec![image("a.png")])));
    assert!(matches!(step, AnalysisStep::Answer { .. }));
    let (stage, step) = advance_analysis(stage, AnalysisEvent::Done);
    assert!(matches!(step, AnalysisStep::RecordStart { target } if is_target(&target)));
    let (_, step) = advance_analysis(stage, AnalysisEvent::Done);
    let AnalysisStep::StartTurn { target, batch } = step else {
        panic!("expected a turn");
    };
    assert!(is_target(&target));
    assert_eq!((batch.batch_id.as_str(), batch.images[0].file_name.as_str()), ("b", "a.png"));
    let (stage, _) = begin_analysis(request());
    let (stage, _) = advance_analysis(stage, AnalysisEvent::Thread(usable(None)));
    let (_, step) = advance_analysis(stage, AnalysisEvent::Thread(homeless()));
    assert!(matches!(
        step,
        AnalysisStep::Finish { outcome: Err(FlowError::MissingWorkspace) }
    ));
}

#[test]
fn failed_analyses_keep_the_batch() {
    let (names, _) = run_image_turn(vec![
        ImageTurnEvent::Done,
        ImageTurnEvent::Mode(ExecutionMode::FullAuto),
        ImageTurnEvent::Failed("boom".to_owned()),
        ImageTurnEvent::Done,
        ImageTurnEvent::Done,
        ImageTurnEvent::Done,
        ImageTurnEvent::Done,
        ImageTurnEvent::Done,
    ]);
    assert!(!names.contains(&"ClearBatch".to_owned()));
    assert_eq!(names.last().map(String::as_str), Some("Finish"));
    let (names, _) = run_image_turn(vec![
        ImageTurnEvent::Done,
        ImageTurnEvent::Mode(ExecutionMode::FullAuto),
        ImageTurnEvent::Ended { execution: execution(), reply: Some("seen".to_owned()) },
        ImageTurnEvent::Done,
        ImageTurnEvent::Done,
        ImageTurnEvent::Done,
        ImageTurnEvent::Completed { finalized: true },
        ImageTurnEvent::Done,
        ImageTurnEvent::Done,
        ImageTurnEvent::Done,
        ImageTurnEvent::Done,
        ImageTurnEvent::Done,
        ImageTurnEvent::Done,
    ]);
    assert!(names.contains(&"ClearBatch".to_owned()));
    assert!(!names.contains(&"SendReply".to_owned()));
}

#[test]
fn analyses_are_given_all_images() {
    let images = vec![image("a.png"), image("b.png")];
    let items = analysis_input("look", "/data/thread", &images);
    assert_eq!(items.len(), 3);
    assert!(matches!(&items[0], CodexInputItem::Text { text } if text == "look"));
    assert!(matches!(
        &items[2],
        CodexInputItem::LocalImage { path } if path == "/data/thread/images/b.png"
    ));
    let artifact = analysis_artifact(
        &PendingImageBatch {
            batch_id: "b".to_owned(),
            control_message_id: None,
            images,
        },
        "now".to_owned(),
        "look".to_owned(),
        "seen".to_owned(),
    );
    assert_eq!(artifact.image_count, 2);
    assert_eq!(artifact.images[1].relative_path, "images/b.png");
}

#[test]
fn messages_are_routed_by_what_they_hold() {
    assert_eq!(route_message(false, true, Some("hi")), MessageRoute::Ignore);
    assert_eq!(route_message(true, true, Some("hi")), MessageRoute::Image);
    assert_eq!(
        route_message(true, false, Some("hi")),
        MessageRoute::Text("hi".to_owned())
    );
    assert_eq!(route_message(true, false, None), MessageRoute::Ignore);
    assert!(is_authorized(Some(7), &vec![7]));
    assert!(!is_authorized(None, &vec![7]));
    assert!(is_control_chat(true, None));
    assert!(!is_control_chat(true, Some(3)));
}
