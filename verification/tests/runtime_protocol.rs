use threadbridge::execution_mode::ExecutionMode;
use threadbridge::runtime_owner::RuntimeOwnerStatus;
use threadbridge::runtime_protocol::{
    aggregate_runtime_readiness, build_runtime_health, ManagedCodexBuildDefaultsView,
    ManagedCodexView, ManagedWorkspaceView,
};

#[test]
fn aggregate_runtime_readiness_treats_pending_adoption_as_degraded() {
    assert_eq!(
        aggregate_runtime_readiness(&["ready", "pending_adoption"]),
        "degraded"
    );
    assert_eq!(
        aggregate_runtime_readiness(&["pending_adoption"]),
        "degraded"
    );
}

#[test]
fn runtime_health_counts_use_workspace_view_conflict_flag() {
    let workspaces = vec![
        ManagedWorkspaceView {
            workspace_cwd: "/tmp/a".to_owned(),
            title: Some("A".to_owned()),
            thread_key: Some("thread-a".to_owned()),
            workspace_execution_mode: ExecutionMode::FullAuto,
            current_execution_mode: Some(ExecutionMode::FullAuto),
            current_approval_policy: None,
            current_sandbox_policy: None,
            mode_drift: false,
            binding_status: "healthy",
            run_status: "running",
            run_phase: "turn_running",
            current_codex_thread_id: Some("thr-a".to_owned()),
            tui_active_codex_thread_id: None,
            tui_session_adoption_pending: false,
            last_used_at: None,
            conflict: true,
            app_server_status: "running",
            hcodex_ingress_status: "running",
            runtime_readiness: "ready",
            runtime_health_source: "owner_heartbeat",
            heartbeat_last_checked_at: None,
            heartbeat_last_error: None,
            session_broken_reason: None,
            recovery_hint: Some("conflict".to_owned()),
            hcodex_path: "/tmp/a/.threadbridge/bin/hcodex".to_owned(),
            hcodex_available: true,
            recent_codex_sessions: Vec::new(),
        },
        ManagedWorkspaceView {
            workspace_cwd: "/tmp/b".to_owned(),
            title: Some("B".to_owned()),
            thread_key: Some("thread-b".to_owned()),
            workspace_execution_mode: ExecutionMode::Yolo,
            current_execution_mode: Some(ExecutionMode::Yolo),
            current_approval_policy: None,
            current_sandbox_policy: None,
            mode_drift: false,
            binding_status: "broken",
            run_status: "idle",
            run_phase: "idle",
            current_codex_thread_id: Some("thr-b".to_owned()),
            tui_active_codex_thread_id: None,
            tui_session_adoption_pending: false,
            last_used_at: None,
            conflict: false,
            app_server_status: "missing",
            hcodex_ingress_status: "missing",
            runtime_readiness: "unavailable",
            runtime_health_source: "owner_pending",
            heartbeat_last_checked_at: None,
            heartbeat_last_error: Some("missing".to_owned()),
            session_broken_reason: Some("broken".to_owned()),
            recovery_hint: Some("repair".to_owned()),
            hcodex_path: "/tmp/b/.threadbridge/bin/hcodex".to_owned(),
            hcodex_available: false,
            recent_codex_sessions: Vec::new(),
        },
    ];
    let view = build_runtime_health(
        "127.0.0.1:0".to_owned(),
        &workspaces,
        RuntimeOwnerStatus::inactive(),
        ManagedCodexView {
            source: "brew",
            source_file_path: "source.txt".to_owned(),
            build_config_file_path: "build-config.json".to_owned(),
            build_info_file_path: "build-info.txt".to_owned(),
            binary_path: "codex".to_owned(),
            binary_ready: true,
            version: Some("1.0.0".to_owned()),
            build_defaults: ManagedCodexBuildDefaultsView {
                source_repo: "repo".to_owned(),
                source_rs_dir: "rs".to_owned(),
                build_profile: "dev".to_owned(),
            },
            build_info: None,
        },
    );

    assert_eq!(view.running_workspaces, 1);
    assert_eq!(view.broken_threads, 1);
    assert_eq!(view.conflicted_workspaces, 1);
    assert_eq!(view.app_server_status, "unavailable");
    assert_eq!(view.runtime_readiness, "unavailable");
}
