use threadbridge::runtime_interaction::{RuntimeInteractionEvent, TurnCompletionSummary};
use threadbridge::collaboration_mode::CollaborationMode;
use threadbridge::runtime_protocol::RuntimeInteractionKind;

#[test]
fn interaction_event_kind_maps_to_canonical_kind() {
    let event = RuntimeInteractionEvent::TurnCompleted(TurnCompletionSummary {
        thread_key: "thread-1".to_owned(),
        collaboration_mode: CollaborationMode::Default,
        final_text: None,
        has_plan: false,
    });
    assert_eq!(event.kind(), RuntimeInteractionKind::TurnCompleted);
}

#[test]
fn plan_follow_up_requested_requires_plan_mode_with_plan() {
    let summary = TurnCompletionSummary {
        thread_key: "thread-1".to_owned(),
        collaboration_mode: CollaborationMode::Plan,
        final_text: Some("plan".to_owned()),
        has_plan: true,
    };
    assert!(summary.plan_follow_up_requested());

    let default_mode = TurnCompletionSummary {
        collaboration_mode: CollaborationMode::Default,
        ..summary.clone()
    };
    assert!(!default_mode.plan_follow_up_requested());
}
