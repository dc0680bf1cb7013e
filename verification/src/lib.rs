//! Workspace-first runtime for Codex sessions with a Telegram front end.
pub mod clock;
pub mod collaboration_mode;
pub mod execution_mode;
pub mod interactive;
pub mod json;
pub mod markdown;
pub mod numbers;
pub mod paths;
pub mod ranking;
pub mod repository;
pub mod runtime_busy_reconcile;
pub mod runtime_control;
pub mod runtime_interaction;
pub mod runtime_owner;
pub mod runtime_paths;
pub mod runtime_protocol;
pub mod session_routing;
pub mod telegram_html;
pub mod telegram_probe;
pub mod telegram_runtime;
pub mod text;
pub mod thread_state;
pub mod thread_transition;
pub mod tool_results;
pub mod working_sessions;
pub mod workspace_services;
pub mod workspace_status;
